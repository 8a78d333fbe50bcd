//! The closed vocabulary of relay status labels and the bit-per-label set
//! over it. An unrecognized label during construction is a parse error,
//! never silently dropped.

use crate::errors::ParseError;
use crate::text::str_eq;
use vstd::prelude::*;

verus! {

/// The 13 status labels a relay line may carry.
#[derive(Clone, Copy, Debug, PartialEq, Eq, Structural)]
pub enum Flag {
    Authority,
    BadExit,
    Exit,
    Fast,
    Guard,
    HSDir,
    MiddleOnly,
    NoEdConsensus,
    Stable,
    StaleDesc,
    Running,
    Valid,
    V2Dir,
}

/// The bit position assigned to each label.
pub open spec fn flag_idx(f: Flag) -> u16 {
    match f {
        Flag::Authority => 0,
        Flag::BadExit => 1,
        Flag::Exit => 2,
        Flag::Fast => 3,
        Flag::Guard => 4,
        Flag::HSDir => 5,
        Flag::MiddleOnly => 6,
        Flag::NoEdConsensus => 7,
        Flag::Stable => 8,
        Flag::StaleDesc => 9,
        Flag::Running => 10,
        Flag::Valid => 11,
        Flag::V2Dir => 12,
    }
}

pub open spec fn flag_bit(f: Flag) -> u16 {
    1u16 << flag_idx(f)
}

fn flag_index(f: Flag) -> (r: u16)
    ensures
        r == flag_idx(f),
{
    match f {
        Flag::Authority => 0,
        Flag::BadExit => 1,
        Flag::Exit => 2,
        Flag::Fast => 3,
        Flag::Guard => 4,
        Flag::HSDir => 5,
        Flag::MiddleOnly => 6,
        Flag::NoEdConsensus => 7,
        Flag::Stable => 8,
        Flag::StaleDesc => 9,
        Flag::Running => 10,
        Flag::Valid => 11,
        Flag::V2Dir => 12,
    }
}

fn flag_mask(f: Flag) -> (r: u16)
    ensures
        r == flag_bit(f),
{
    let k = flag_index(f);
    proof {
        assert(flag_idx(f) <= 12);
    }
    1u16 << k
}

/// Maps the 13 exact label strings (case-sensitive) to their flag; anything
/// else is unknown.
pub open spec fn spec_flag_of_label(s: Seq<char>) -> Option<Flag> {
    if s == "Authority"@ {
        Some(Flag::Authority)
    } else if s == "BadExit"@ {
        Some(Flag::BadExit)
    } else if s == "Exit"@ {
        Some(Flag::Exit)
    } else if s == "Fast"@ {
        Some(Flag::Fast)
    } else if s == "Guard"@ {
        Some(Flag::Guard)
    } else if s == "HSDir"@ {
        Some(Flag::HSDir)
    } else if s == "MiddleOnly"@ {
        Some(Flag::MiddleOnly)
    } else if s == "NoEdConsensus"@ {
        Some(Flag::NoEdConsensus)
    } else if s == "Stable"@ {
        Some(Flag::Stable)
    } else if s == "StaleDesc"@ {
        Some(Flag::StaleDesc)
    } else if s == "Running"@ {
        Some(Flag::Running)
    } else if s == "Valid"@ {
        Some(Flag::Valid)
    } else if s == "V2Dir"@ {
        Some(Flag::V2Dir)
    } else {
        None
    }
}

impl Flag {
    /// Partial mapping from label text to flag; unrecognized labels are a
    /// typed failure carrying the offending label.
    pub fn from_label(s: &str) -> (r: Result<Flag, ParseError>)
        ensures
            r matches Ok(f) ==> spec_flag_of_label(s@) == Some(f),
            r matches Err(e) ==> spec_flag_of_label(s@) is None && (e@ matches
                crate::errors::ParseErrorModel::UnknownFlag(lbl) && lbl == s@),
    {
        if str_eq(s, "Authority") {
            Ok(Flag::Authority)
        } else if str_eq(s, "BadExit") {
            Ok(Flag::BadExit)
        } else if str_eq(s, "Exit") {
            Ok(Flag::Exit)
        } else if str_eq(s, "Fast") {
            Ok(Flag::Fast)
        } else if str_eq(s, "Guard") {
            Ok(Flag::Guard)
        } else if str_eq(s, "HSDir") {
            Ok(Flag::HSDir)
        } else if str_eq(s, "MiddleOnly") {
            Ok(Flag::MiddleOnly)
        } else if str_eq(s, "NoEdConsensus") {
            Ok(Flag::NoEdConsensus)
        } else if str_eq(s, "Stable") {
            Ok(Flag::Stable)
        } else if str_eq(s, "StaleDesc") {
            Ok(Flag::StaleDesc)
        } else if str_eq(s, "Running") {
            Ok(Flag::Running)
        } else if str_eq(s, "Valid") {
            Ok(Flag::Valid)
        } else if str_eq(s, "V2Dir") {
            Ok(Flag::V2Dir)
        } else {
            Err(ParseError::UnknownFlag(s.to_owned()))
        }
    }
}

/// A set of flags, one bit per label. Only labels of the closed vocabulary
/// are representable.
#[derive(Clone, Copy, Debug, PartialEq, Eq, Structural)]
pub struct Flags {
    bits: u16,
}

impl View for Flags {
    type V = Set<Flag>;

    closed spec fn view(&self) -> Set<Flag> {
        Set::new(|f: Flag| self.bits & flag_bit(f) != 0)
    }
}

proof fn lemma_flag_bits(bits: u16, f: Flag, g: Flag)
    ensures
        ((bits | flag_bit(f)) & flag_bit(g) != 0) == (f == g || (bits & flag_bit(g) != 0)),
{
    let kf = flag_idx(f);
    let kg = flag_idx(g);
    assert(kf < 13 && kg < 13);
    assert(((bits | (1u16 << kf)) & (1u16 << kg) != 0) == (kf == kg || (bits & (1u16 << kg)
        != 0))) by (bit_vector)
        requires
            kf < 13,
            kg < 13,
    ;
    assert(kf == kg ==> f == g);
}

impl Flags {
    #[verifier::type_invariant]
    closed spec fn wf(self) -> bool {
        self.bits < 0x2000
    }

    /// The set with no flags.
    pub fn empty() -> (r: Flags)
        ensures
            r@ == Set::<Flag>::empty(),
    {
        let r = Flags { bits: 0 };
        proof {
            assert forall|f: Flag| !r@.contains(f) by {
                let b = flag_bit(f);
                assert(0u16 & b == 0) by (bit_vector);
            }
            assert(r@ =~= Set::<Flag>::empty());
        }
        r
    }

    /// Adds one flag to the set.
    pub fn insert(&mut self, f: Flag)
        ensures
            final(self)@ == old(self)@.insert(f),
    {
        let b = flag_mask(f);
        proof {
            use_type_invariant(&*self);
            let k = flag_idx(f);
            assert(k < 13);
            let bits = self.bits;
            assert((bits | (1u16 << k)) < 0x2000) by (bit_vector)
                requires
                    bits < 0x2000,
                    k < 13,
            ;
        }
        self.bits = self.bits | b;
        proof {
            assert forall|g: Flag|
                self@.contains(g) == old(self)@.insert(f).contains(g) by {
                lemma_flag_bits(old(self).bits, f, g);
            }
            assert(self@ =~= old(self)@.insert(f));
        }
    }

    /// Membership of a single flag.
    pub fn contains(&self, f: Flag) -> (r: bool)
        ensures
            r == self@.contains(f),
    {
        let b = flag_mask(f);
        (self.bits & b) != 0
    }

    /// The union of two flag sets.
    pub fn union(self, other: Flags) -> (r: Flags)
        ensures
            r@ == self@.union(other@),
    {
        proof {
            use_type_invariant(&self);
            use_type_invariant(&other);
            let sb = self.bits;
            let ob = other.bits;
            assert((sb | ob) < 0x2000) by (bit_vector)
                requires
                    sb < 0x2000,
                    ob < 0x2000,
            ;
        }
        let r = Flags { bits: self.bits | other.bits };
        proof {
            assert forall|g: Flag|
                r@.contains(g) == (self@.contains(g) || other@.contains(g)) by {
                let b = flag_bit(g);
                let sb = self.bits;
                let ob = other.bits;
                assert(((sb | ob) & b != 0) == ((sb & b != 0) || (ob & b != 0))) by (bit_vector);
            }
            assert(r@ =~= self@.union(other@));
        }
        r
    }

    /// Subset test: every flag of `other` is also in `self`.
    pub fn contains_all(&self, other: Flags) -> (r: bool)
        ensures
            r == other@.subset_of(self@),
    {
        proof {
            use_type_invariant(&*self);
            use_type_invariant(&other);
        }
        let r = (self.bits & other.bits) == other.bits;
        proof {
            lemma_subset_bits(self.bits, other.bits);
            if r {
                assert forall|g: Flag| other@.contains(g) implies self@.contains(g) by {
                    assert(other.bits & flag_bit(g) != 0);
                    assert(self.bits & flag_bit(g) != 0);
                }
                assert(other@.subset_of(self@));
            } else {
                assert(exists|g: Flag| (other.bits & #[trigger] flag_bit(g) != 0) && !(self.bits
                    & flag_bit(g) != 0));
                let g = choose|g: Flag| (other.bits & #[trigger] flag_bit(g) != 0) && !(self.bits
                    & flag_bit(g) != 0);
                assert(other@.contains(g) && !self@.contains(g));
                assert(!other@.subset_of(self@));
            }
        }
        r
    }
}

proof fn lemma_subset_bits(s: u16, o: u16)
    requires
        s < 0x2000,
        o < 0x2000,
    ensures
        ((s & o) == o) == (forall|g: Flag| (o & flag_bit(g) != 0) ==> (s & #[trigger] flag_bit(g)
            != 0)),
{
    if (s & o) == o {
        assert forall|g: Flag| (o & flag_bit(g) != 0) implies (s & #[trigger] flag_bit(g)
            != 0) by {
            let b = flag_bit(g);
            assert((s & o == o && o & b != 0) ==> (s & b != 0)) by (bit_vector);
        }
    }
    if forall|g: Flag| (o & flag_bit(g) != 0) ==> (s & #[trigger] flag_bit(g) != 0) {
        assert(1u16 << 0u16 == 0x1 && 1u16 << 1u16 == 0x2 && 1u16 << 2u16 == 0x4 && 1u16 << 3u16
            == 0x8 && 1u16 << 4u16 == 0x10 && 1u16 << 5u16 == 0x20 && 1u16 << 6u16 == 0x40 && 1u16
            << 7u16 == 0x80 && 1u16 << 8u16 == 0x100 && 1u16 << 9u16 == 0x200 && 1u16 << 10u16
            == 0x400 && 1u16 << 11u16 == 0x800 && 1u16 << 12u16 == 0x1000) by (bit_vector);
        assert(o & flag_bit(Flag::Authority) != 0 ==> s & flag_bit(Flag::Authority) != 0);
        assert(o & flag_bit(Flag::BadExit) != 0 ==> s & flag_bit(Flag::BadExit) != 0);
        assert(o & flag_bit(Flag::Exit) != 0 ==> s & flag_bit(Flag::Exit) != 0);
        assert(o & flag_bit(Flag::Fast) != 0 ==> s & flag_bit(Flag::Fast) != 0);
        assert(o & flag_bit(Flag::Guard) != 0 ==> s & flag_bit(Flag::Guard) != 0);
        assert(o & flag_bit(Flag::HSDir) != 0 ==> s & flag_bit(Flag::HSDir) != 0);
        assert(o & flag_bit(Flag::MiddleOnly) != 0 ==> s & flag_bit(Flag::MiddleOnly) != 0);
        assert(o & flag_bit(Flag::NoEdConsensus) != 0 ==> s & flag_bit(Flag::NoEdConsensus) != 0);
        assert(o & flag_bit(Flag::Stable) != 0 ==> s & flag_bit(Flag::Stable) != 0);
        assert(o & flag_bit(Flag::StaleDesc) != 0 ==> s & flag_bit(Flag::StaleDesc) != 0);
        assert(o & flag_bit(Flag::Running) != 0 ==> s & flag_bit(Flag::Running) != 0);
        assert(o & flag_bit(Flag::Valid) != 0 ==> s & flag_bit(Flag::Valid) != 0);
        assert(o & flag_bit(Flag::V2Dir) != 0 ==> s & flag_bit(Flag::V2Dir) != 0);
        assert((s & o) == o) by (bit_vector)
            requires
                o < 0x2000,
                (o & 0x1u16 != 0 ==> s & 0x1u16 != 0),
                (o & 0x2u16 != 0 ==> s & 0x2u16 != 0),
                (o & 0x4u16 != 0 ==> s & 0x4u16 != 0),
                (o & 0x8u16 != 0 ==> s & 0x8u16 != 0),
                (o & 0x10u16 != 0 ==> s & 0x10u16 != 0),
                (o & 0x20u16 != 0 ==> s & 0x20u16 != 0),
                (o & 0x40u16 != 0 ==> s & 0x40u16 != 0),
                (o & 0x80u16 != 0 ==> s & 0x80u16 != 0),
                (o & 0x100u16 != 0 ==> s & 0x100u16 != 0),
                (o & 0x200u16 != 0 ==> s & 0x200u16 != 0),
                (o & 0x400u16 != 0 ==> s & 0x400u16 != 0),
                (o & 0x800u16 != 0 ==> s & 0x800u16 != 0),
                (o & 0x1000u16 != 0 ==> s & 0x1000u16 != 0),
        ;
    }
}

} // verus!
