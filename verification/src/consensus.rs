//! The consensus document parser and the parsed `Consensus` aggregate.
//!
//! The document is split into lines, each line into whitespace-separated
//! tokens, and dispatch is exclusively on the first token; unrecognized
//! keywords are ignored. The whole parse is specified by the spec-level
//! machine `spec_parse`, a fold of `spec_line_step` over the lines, so the
//! executable parser is a pure function of the document text.

use crate::errors::{ParseError, ParseErrorModel, SelectionError, TimeField};
use crate::flags::{spec_flag_of_label, Flag, Flags};
use crate::relay::{
    parse_ipv4, spec_ipv4, spec_is_available, OnionRouter, RouterModel,
};
use crate::text::{parse_dec_max, spec_dec_token, split_on, split_on_char, str_eq, tokenize, tokens_of};
use crate::time::{parse_utc_datetime, utc_datetime_of};
use vstd::prelude::*;

verus! {

/// The fixed cap on retained relays: once this many available relays have
/// been collected, the rest of the document is not processed.
pub const ONION_ROUTER_LIMIT: usize = 100;

/// A validated consensus: validity window and the ordered sequence of
/// available relays, in first-seen document order, capped at
/// `ONION_ROUTER_LIMIT`.
#[derive(Debug, PartialEq)]
pub struct Consensus {
    pub valid_after: i64,
    pub valid_until: i64,
    pub onion_routers: Vec<OnionRouter>,
}

/// The mathematical view of a consensus.
#[verifier::ext_equal]
pub struct ConsensusModel {
    pub valid_after: i64,
    pub valid_until: i64,
    pub onion_routers: Seq<RouterModel>,
}

impl View for Consensus {
    type V = ConsensusModel;

    open spec fn view(&self) -> ConsensusModel {
        ConsensusModel {
            valid_after: self.valid_after,
            valid_until: self.valid_until,
            onion_routers: self.onion_routers.deep_view(),
        }
    }
}

/// The parser's accumulator: the two timestamp fields seen so far, the
/// relay record in progress, the retained relays, and whether the scan
/// stopped early at the cap.
#[verifier::ext_equal]
pub struct ScanState {
    pub valid_after: Option<i64>,
    pub valid_until: Option<i64>,
    pub current: Option<RouterModel>,
    pub routers: Seq<RouterModel>,
    pub done: bool,
}

pub open spec fn init_scan_state() -> ScanState {
    ScanState {
        valid_after: None,
        valid_until: None,
        current: None,
        routers: Seq::empty(),
        done: false,
    }
}

/// Finalizes the relay record in progress: it is retained exactly when it
/// is available.
pub open spec fn spec_finalize_current(st: ScanState) -> ScanState {
    match st.current {
        Some(r) => {
            if spec_is_available(r) {
                ScanState { current: None, routers: st.routers.push(r), ..st }
            } else {
                ScanState { current: None, ..st }
            }
        },
        None => st,
    }
}

/// Adds each token, read as a flag label, to the flag set; the first
/// unknown label fails the parse.
pub open spec fn spec_add_flags(fs: Set<Flag>, toks: Seq<Seq<char>>) -> Result<
    Set<Flag>,
    ParseErrorModel,
>
    decreases toks.len(),
{
    if toks.len() == 0 {
        Ok(fs)
    } else {
        match spec_flag_of_label(toks[0]) {
            Some(f) => spec_add_flags(fs.insert(f), toks.drop_first()),
            None => Err(ParseErrorModel::UnknownFlag(toks[0])),
        }
    }
}

/// The token reported by a version or vote-status failure: the second token
/// when there is one, empty otherwise.
pub open spec fn found_token_of(toks: Seq<Seq<char>>) -> Seq<char> {
    if toks.len() >= 2 {
        toks[1]
    } else {
        Seq::empty()
    }
}

/// One keyword line applied to the accumulator.
pub open spec fn spec_line_step(st: ScanState, toks: Seq<Seq<char>>) -> Result<
    ScanState,
    ParseErrorModel,
> {
    if toks.len() == 0 {
        Ok(st)
    } else if toks[0] == "network-status-version"@ {
        if toks.len() == 3 && toks[1] == "3"@ && toks[2] == "microdesc"@ {
            Ok(st)
        } else {
            Err(ParseErrorModel::UnsupportedDocumentFormatVersion(found_token_of(toks)))
        }
    } else if toks[0] == "vote-status"@ {
        if toks.len() == 2 && toks[1] == "consensus"@ {
            Ok(st)
        } else {
            Err(ParseErrorModel::UnexpectedVoteStatus(found_token_of(toks)))
        }
    } else if toks[0] == "valid-after"@ {
        if toks.len() == 3 {
            match utc_datetime_of(toks[1], toks[2]) {
                Some(t) => Ok(ScanState { valid_after: Some(t), ..st }),
                None => Err(ParseErrorModel::DateTimeParseError(TimeField::ValidAfter)),
            }
        } else {
            Err(ParseErrorModel::DateTimeParseError(TimeField::ValidAfter))
        }
    } else if toks[0] == "valid-until"@ {
        if toks.len() == 3 {
            match utc_datetime_of(toks[1], toks[2]) {
                Some(t) => Ok(ScanState { valid_until: Some(t), ..st }),
                None => Err(ParseErrorModel::DateTimeParseError(TimeField::ValidUntil)),
            }
        } else {
            Err(ParseErrorModel::DateTimeParseError(TimeField::ValidUntil))
        }
    } else if toks[0] == "r"@ {
        let st1 = spec_finalize_current(st);
        if st1.routers.len() >= ONION_ROUTER_LIMIT as int {
            Ok(ScanState { current: None, done: true, ..st1 })
        } else if toks.len() >= 8 {
            match (spec_ipv4(toks[5]), spec_dec_token(toks[6], 65535), spec_dec_token(
                toks[7],
                65535,
            )) {
                (Some(ip), Some(op), Some(dp)) => Ok(
                    ScanState {
                        current: Some(
                            RouterModel {
                                nickname: toks[1],
                                ip: ip,
                                or_port: op,
                                dir_port: dp,
                                flags: Set::empty(),
                            },
                        ),
                        ..st1
                    },
                ),
                _ => Err(ParseErrorModel::MalformedRelayLine),
            }
        } else {
            Err(ParseErrorModel::MalformedRelayLine)
        }
    } else if toks[0] == "s"@ {
        match st.current {
            Some(r) => match spec_add_flags(r.flags, toks.drop_first()) {
                Ok(fs) => Ok(ScanState { current: Some(RouterModel { flags: fs, ..r }), ..st }),
                Err(e) => Err(e),
            },
            None => Err(ParseErrorModel::MalformedRelayLine),
        }
    } else {
        Ok(st)
    }
}

/// The fold of `spec_line_step` over the document's lines; it stops early
/// once the cap has been reached.
pub open spec fn spec_scan(lines: Seq<Seq<char>>, st: ScanState) -> Result<
    ScanState,
    ParseErrorModel,
>
    decreases lines.len(),
{
    if lines.len() == 0 || st.done {
        Ok(st)
    } else {
        match spec_line_step(st, tokens_of(lines[0])) {
            Ok(st2) => spec_scan(lines.drop_first(), st2),
            Err(e) => Err(e),
        }
    }
}

/// Completion: the final record is finalized, and both timestamp fields
/// must have been seen.
pub open spec fn spec_complete(st: ScanState) -> Result<ConsensusModel, ParseErrorModel> {
    let st1 = spec_finalize_current(st);
    match (st1.valid_after, st1.valid_until) {
        (Some(a), Some(u)) => Ok(
            ConsensusModel { valid_after: a, valid_until: u, onion_routers: st1.routers },
        ),
        (None, _) => Err(ParseErrorModel::MissingField(TimeField::ValidAfter)),
        (_, None) => Err(ParseErrorModel::MissingField(TimeField::ValidUntil)),
    }
}

/// What parsing a document text yields: the whole parse as a function of
/// the text alone.
pub open spec fn spec_parse(doc: Seq<char>) -> Result<ConsensusModel, ParseErrorModel> {
    match spec_scan(split_on(doc, '\n'), init_scan_state()) {
        Ok(st) => spec_complete(st),
        Err(e) => Err(e),
    }
}

/// The parser's executable accumulator.
struct ScanExec {
    valid_after: Option<i64>,
    valid_until: Option<i64>,
    current: Option<OnionRouter>,
    routers: Vec<OnionRouter>,
    done: bool,
}

impl View for ScanExec {
    type V = ScanState;

    closed spec fn view(&self) -> ScanState {
        ScanState {
            valid_after: self.valid_after,
            valid_until: self.valid_until,
            current: match self.current {
                Some(r) => Some(r@),
                None => None,
            },
            routers: self.routers.deep_view(),
            done: self.done,
        }
    }
}

fn finalize_scan(st: ScanExec) -> (r: ScanExec)
    ensures
        r@ == spec_finalize_current(st@),
{
    let ScanExec { valid_after, valid_until, current, mut routers, done } = st;
    match current {
        Some(or) => {
            if or.is_available() {
                let ghost old_dv = routers.deep_view();
                let r2 = {
                    routers.push(or);
                    proof {
                        assert(routers.deep_view() =~= old_dv.push(or@));
                    }
                    ScanExec { valid_after, valid_until, current: None, routers, done }
                };
                proof {
                    assert(r2@ =~= spec_finalize_current(st@));
                }
                r2
            } else {
                let r2 = ScanExec { valid_after, valid_until, current: None, routers, done };
                proof {
                    assert(r2@ =~= spec_finalize_current(st@));
                }
                r2
            }
        },
        None => {
            let r2 = ScanExec { valid_after, valid_until, current: None, routers, done };
            proof {
                assert(r2@ =~= spec_finalize_current(st@));
            }
            r2
        },
    }
}

fn found_token(toks: &Vec<&str>) -> (r: String)
    ensures
        r@ == found_token_of(toks.deep_view()),
{
    if toks.len() >= 2 {
        proof {
            assert(toks.deep_view()[1] == toks@[1]@);
        }
        toks[1].to_owned()
    } else {
        String::new()
    }
}

#[verifier::loop_isolation(false)]
fn scan_line_step(st: ScanExec, toks: &Vec<&str>) -> (r: Result<ScanExec, ParseError>)
    ensures
        r matches Ok(st2) ==> spec_line_step(st@, toks.deep_view()) == Ok::<
            ScanState,
            ParseErrorModel,
        >(st2@),
        r matches Err(e) ==> spec_line_step(st@, toks.deep_view()) == Err::<
            ScanState,
            ParseErrorModel,
        >(e@),
{
    let ghost tv = toks.deep_view();
    let ghost st0 = st@;
    if toks.len() == 0 {
        return Ok(st);
    }
    proof {
        assert(tv.len() == toks@.len());
        assert(tv[0] == toks@[0]@);
    }
    let kw = toks[0];
    if str_eq(kw, "network-status-version") {
        proof {
            if toks@.len() >= 2 {
                assert(tv[1] == toks@[1]@);
            }
            if toks@.len() >= 3 {
                assert(tv[2] == toks@[2]@);
            }
        }
        if toks.len() == 3 && str_eq(toks[1], "3") && str_eq(toks[2], "microdesc") {
            Ok(st)
        } else {
            Err(ParseError::UnsupportedDocumentFormatVersion(found_token(toks)))
        }
    } else if str_eq(kw, "vote-status") {
        proof {
            if toks@.len() >= 2 {
                assert(tv[1] == toks@[1]@);
            }
        }
        if toks.len() == 2 && str_eq(toks[1], "consensus") {
            Ok(st)
        } else {
            Err(ParseError::UnexpectedVoteStatus(found_token(toks)))
        }
    } else if str_eq(kw, "valid-after") {
        if toks.len() == 3 {
            proof {
                assert(tv[1] == toks@[1]@);
                assert(tv[2] == toks@[2]@);
            }
            match parse_utc_datetime(toks[1], toks[2]) {
                Ok(t) => Ok(ScanExec { valid_after: Some(t), ..st }),
                Err(cause) => Err(ParseError::DateTimeParseError(TimeField::ValidAfter, cause)),
            }
        } else {
            Err(ParseError::DateTimeParseError(TimeField::ValidAfter, String::new()))
        }
    } else if str_eq(kw, "valid-until") {
        if toks.len() == 3 {
            proof {
                assert(tv[1] == toks@[1]@);
                assert(tv[2] == toks@[2]@);
            }
            match parse_utc_datetime(toks[1], toks[2]) {
                Ok(t) => Ok(ScanExec { valid_until: Some(t), ..st }),
                Err(cause) => Err(ParseError::DateTimeParseError(TimeField::ValidUntil, cause)),
            }
        } else {
            Err(ParseError::DateTimeParseError(TimeField::ValidUntil, String::new()))
        }
    } else if str_eq(kw, "r") {
        let st1 = finalize_scan(st);
        if st1.routers.len() >= ONION_ROUTER_LIMIT {
            let r2 = ScanExec { current: None, done: true, ..st1 };
            proof {
                assert(r2@ =~= spec_line_step(st0, tv)->Ok_0);
            }
            Ok(r2)
        } else if toks.len() >= 8 {
            proof {
                assert(tv[1] == toks@[1]@);
                assert(tv[5] == toks@[5]@);
                assert(tv[6] == toks@[6]@);
                assert(tv[7] == toks@[7]@);
            }
            let ip = match parse_ipv4(toks[5]) {
                Some(ip) => ip,
                None => {
                    return Err(ParseError::MalformedRelayLine);
                },
            };
            let op = match parse_dec_max(toks[6], 65535) {
                Some(v) => v,
                None => {
                    return Err(ParseError::MalformedRelayLine);
                },
            };
            let dp = match parse_dec_max(toks[7], 65535) {
                Some(v) => v,
                None => {
                    return Err(ParseError::MalformedRelayLine);
                },
            };
            let nickname = toks[1].to_owned();
            let r2 = ScanExec {
                current: Some(
                    OnionRouter {
                        nickname,
                        ip,
                        or_port: op,
                        dir_port: dp,
                        flags: Flags::empty(),
                    },
                ),
                ..st1
            };
            proof {
                assert(r2@ =~= spec_line_step(st0, tv)->Ok_0);
            }
            Ok(r2)
        } else {
            Err(ParseError::MalformedRelayLine)
        }
    } else if str_eq(kw, "s") {
        let ScanExec { valid_after, valid_until, current, routers, done } = st;
        match current {
            Some(or) => {
                let mut or = or;
                let ghost orig = or@;
                proof {
                    assert(tv.drop_first() =~= tv.skip(1));
                }
                let mut j: usize = 1;
                while j < toks.len()
                    invariant
                        1 <= j <= toks@.len(),
                        tv == toks.deep_view(),
                        tv.len() == toks@.len(),
                        spec_add_flags(orig.flags, tv.skip(1)) == spec_add_flags(
                            or@.flags,
                            tv.skip(j as int),
                        ),
                        or@ == (RouterModel { flags: or@.flags, ..orig }),
                    decreases toks@.len() - j,
                {
                    proof {
                        assert(tv[j as int] == toks@[j as int]@);
                        assert(tv.skip(j as int)[0] == tv[j as int]);
                        assert(tv.skip(j as int).drop_first() =~= tv.skip(j + 1));
                    }
                    let f = match Flag::from_label(toks[j]) {
                        Ok(f) => f,
                        Err(e) => {
                            proof {
                                assert(spec_add_flags(orig.flags, tv.skip(1)) == Err::<
                                    Set<Flag>,
                                    ParseErrorModel,
                                >(e@));
                            }
                            return Err(e);
                        },
                    };
                    or.flags.insert(f);
                    j = j + 1;
                }
                proof {
                    assert(tv.skip(toks@.len() as int) =~= Seq::<Seq<char>>::empty());
                    assert(spec_add_flags(orig.flags, tv.skip(1)) == Ok::<
                        Set<Flag>,
                        ParseErrorModel,
                    >(or@.flags));
                }
                let r2 = ScanExec {
                    valid_after,
                    valid_until,
                    current: Some(or),
                    routers,
                    done,
                };
                proof {
                    assert(r2@ =~= spec_line_step(st0, tv)->Ok_0);
                }
                Ok(r2)
            },
            None => Err(ParseError::MalformedRelayLine),
        }
    } else {
        Ok(st)
    }
}

/// Parses a consensus document.
///
/// The result is exactly `spec_parse` of the document text, so parsing is a
/// pure function of the text: on success the consensus view equals the
/// spec-level parse, and on failure the error (up to the unmodeled
/// free-text cause of a timestamp failure) does too.
#[verifier::loop_isolation(false)]
pub fn parse_consensus_document(document: &str) -> (r: Result<Consensus, ParseError>)
    ensures
        r matches Ok(c) ==> spec_parse(document@) == Ok::<ConsensusModel, ParseErrorModel>(c@),
        r matches Err(e) ==> spec_parse(document@) == Err::<ConsensusModel, ParseErrorModel>(e@),
        r matches Ok(c) ==> c@.onion_routers.len() <= ONION_ROUTER_LIMIT as int,
        r matches Ok(c) ==> forall|i: int|
            0 <= i < c@.onion_routers.len() ==> spec_is_available(#[trigger] c@.onion_routers[i]),
{
    proof {
        crate::laws::lemma_availability_filter(document@);
        crate::laws::lemma_relay_cap(document@);
    }
    let lines = split_on_char(document, '\n');
    let ghost lv = lines.deep_view();
    let mut st = ScanExec {
        valid_after: None,
        valid_until: None,
        current: None,
        routers: Vec::new(),
        done: false,
    };
    proof {
        assert(st.routers.deep_view() =~= Seq::<RouterModel>::empty());
        assert(st@ =~= init_scan_state());
        assert(lv.skip(0) =~= lv);
    }
    let mut i: usize = 0;
    while i < lines.len() && !st.done
        invariant
            lv == lines.deep_view(),
            lv.len() == lines@.len(),
            0 <= i <= lines@.len(),
            spec_scan(lv, init_scan_state()) == spec_scan(lv.skip(i as int), st@),
        decreases lines@.len() - i,
    {
        proof {
            assert(lv[i as int] == lines@[i as int]@);
            assert(lv.skip(i as int)[0] == lv[i as int]);
            assert(lv.skip(i as int).drop_first() =~= lv.skip(i + 1));
        }
        let toks = tokenize(lines[i]);
        match scan_line_step(st, &toks) {
            Ok(st2) => {
                st = st2;
            },
            Err(e) => {
                proof {
                    assert(spec_scan(lv.skip(i as int), st@) == Err::<ScanState, ParseErrorModel>(
                        e@,
                    ));
                }
                return Err(e);
            },
        }
        i = i + 1;
    }
    proof {
        if i == lines@.len() {
            assert(lv.skip(i as int) =~= Seq::<Seq<char>>::empty());
        }
        assert(spec_scan(lv, init_scan_state()) == Ok::<ScanState, ParseErrorModel>(st@));
    }
    let st1 = finalize_scan(st);
    let ghost st1v = st1@;
    let ScanExec { valid_after, valid_until, current: _, routers, done: _ } = st1;
    match (valid_after, valid_until) {
        (Some(a), Some(u)) => {
            let c = Consensus { valid_after: a, valid_until: u, onion_routers: routers };
            proof {
                assert(c@ =~= spec_complete(st@)->Ok_0);
            }
            Ok(c)
        },
        (None, _) => Err(ParseError::MissingField(TimeField::ValidAfter)),
        (_, None) => Err(ParseError::MissingField(TimeField::ValidUntil)),
    }
}

/// The fixed sampling budget of the guard selector.
pub const SELECTION_ATTEMPT_LIMIT: usize = 100;

/// Relies on `rand::random_range` over `0..n`: a uniformly random value in
/// the given range, from the thread-local generator; it panics only on an
/// empty range, which the precondition rules out.
#[verifier::external_body]
fn sample_index(n: usize) -> (r: usize)
    requires
        n >= 1,
    ensures
        r < n,
{
    rand::random_range(0..n)
}

impl Consensus {
    /// Bounded rejection sampling for a guard relay: draw a uniformly random
    /// index over the full relay sequence — the whole index range `[0, len)`
    /// is eligible, deliberately including the last relay — and accept the
    /// relay there if it carries the Guard flag; give up with `NoGuardFound`
    /// after the fixed number of draws.
    ///
    /// Any relay returned is a member of the sequence and carries the Guard
    /// flag; if no relay carries it, the call always fails with
    /// `NoGuardFound`; and with exactly one relay, which carries it, the
    /// first draw must hit it, so the call returns it deterministically.
    pub fn choose_guard_relay(&self) -> (r: Result<&OnionRouter, SelectionError>)
        ensures
            r matches Ok(or) ==> (exists|i: int|
                0 <= i < self@.onion_routers.len() && self@.onion_routers[i] == or@)
                && or@.flags.contains(Flag::Guard),
            (forall|i: int|
                0 <= i < self@.onion_routers.len()
                    ==> !(#[trigger] self@.onion_routers[i]).flags.contains(Flag::Guard)) ==> (r
                matches Err(e) && e == SelectionError::NoGuardFound),
            (self@.onion_routers.len() == 1 && self@.onion_routers[0].flags.contains(Flag::Guard))
                ==> (r matches Ok(or) && or@ == self@.onion_routers[0]),
    {
        let n = self.onion_routers.len();
        if n == 0 {
            return Err(SelectionError::NoGuardFound);
        }
        let mut attempted: usize = 0;
        while attempted < SELECTION_ATTEMPT_LIMIT
            invariant
                n == self@.onion_routers.len(),
                n >= 1,
                self@.onion_routers.len() == 1 && self@.onion_routers[0].flags.contains(
                    Flag::Guard,
                ) ==> attempted == 0,
            decreases SELECTION_ATTEMPT_LIMIT - attempted,
        {
            let i = sample_index(n);
            let or = &self.onion_routers[i];
            proof {
                assert(or@ == self@.onion_routers[i as int]);
            }
            if or.flags.contains(Flag::Guard) {
                return Ok(or);
            }
            attempted = attempted + 1;
        }
        Err(SelectionError::NoGuardFound)
    }
}

} // verus!

