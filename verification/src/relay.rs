//! The relay model: an IPv4 address held as four plain octets, the
//! `OnionRouter` entity, and the availability predicates the parser and the
//! selector rely on.

use crate::flags::{Flag, Flags};
use crate::text::{spec_dec_token, split_on, split_on_char, parse_dec_max};
use vstd::prelude::*;

verus! {

/// An IPv4 address as four octets, most significant first.
#[derive(Clone, Copy, Debug, PartialEq, Eq, Structural)]
pub struct Ipv4(pub u8, pub u8, pub u8, pub u8);

/// An octet token: a nonempty digit string with value at most 255 and no
/// leading zero (`0` itself is accepted, `010` is not).
pub open spec fn spec_octet(s: Seq<char>) -> Option<u8> {
    if s.len() > 1 && s[0] == '0' {
        None
    } else {
        match spec_dec_token(s, 255) {
            Some(v) => Some(v as u8),
            None => None,
        }
    }
}

fn parse_octet(t: &str) -> (r: Option<u8>)
    ensures
        r == spec_octet(t@),
{
    let n = t.unicode_len();
    if n > 1 && t.get_char(0) == '0' {
        return None;
    }
    match parse_dec_max(t, 255) {
        Some(v) => Some(v as u8),
        None => None,
    }
}

/// A dotted-quad token: exactly four octet tokens separated by `.`, each a
/// nonempty digit string with value at most 255 and no leading zeros.
pub open spec fn spec_ipv4(s: Seq<char>) -> Option<Ipv4> {
    let parts = split_on(s, '.');
    if parts.len() == 4 {
        match (spec_octet(parts[0]), spec_octet(parts[1]), spec_octet(parts[2]), spec_octet(
            parts[3],
        )) {
            (Some(a), Some(b), Some(c), Some(d)) => Some(Ipv4(a, b, c, d)),
            _ => None,
        }
    } else {
        None
    }
}

/// Parses a dotted-quad IPv4 address token.
pub fn parse_ipv4(t: &str) -> (r: Option<Ipv4>)
    ensures
        r == spec_ipv4(t@),
{
    let parts = split_on_char(t, '.');
    if parts.len() != 4 {
        return None;
    }
    proof {
        assert(parts.deep_view()[0] == parts@[0]@);
        assert(parts.deep_view()[1] == parts@[1]@);
        assert(parts.deep_view()[2] == parts@[2]@);
        assert(parts.deep_view()[3] == parts@[3]@);
    }
    let a = match parse_octet(parts[0]) {
        Some(v) => v,
        None => {
            return None;
        },
    };
    let b = match parse_octet(parts[1]) {
        Some(v) => v,
        None => {
            return None;
        },
    };
    let c = match parse_octet(parts[2]) {
        Some(v) => v,
        None => {
            return None;
        },
    };
    let d = match parse_octet(parts[3]) {
        Some(v) => v,
        None => {
            return None;
        },
    };
    Some(Ipv4(a, b, c, d))
}

/// The mathematical view of a relay.
pub struct RouterModel {
    pub nickname: Seq<char>,
    pub ip: Ipv4,
    pub or_port: u16,
    pub dir_port: u16,
    pub flags: Set<Flag>,
}

/// A relay of the consensus: identity, address, ports (0 means "not
/// offered"), and its status flags. Immutable once constructed.
#[derive(Clone, Debug, PartialEq)]
pub struct OnionRouter {
    pub nickname: String,
    pub ip: Ipv4,
    pub or_port: u16,
    pub dir_port: u16,
    pub flags: Flags,
}

impl DeepView for OnionRouter {
    type V = RouterModel;

    open spec fn deep_view(&self) -> RouterModel {
        self.view()
    }
}

impl View for OnionRouter {
    type V = RouterModel;

    open spec fn view(&self) -> RouterModel {
        RouterModel {
            nickname: self.nickname@,
            ip: self.ip,
            or_port: self.or_port,
            dir_port: self.dir_port,
            flags: self.flags@,
        }
    }
}

/// A relay is stable when it carries all of Valid, Running, Fast and Stable.
pub open spec fn spec_is_stable(r: RouterModel) -> bool {
    r.flags.contains(Flag::Valid) && r.flags.contains(Flag::Running) && r.flags.contains(
        Flag::Fast,
    ) && r.flags.contains(Flag::Stable)
}

/// A relay is available when it is stable and offers a directory port.
pub open spec fn spec_is_available(r: RouterModel) -> bool {
    spec_is_stable(r) && r.dir_port > 0
}

impl OnionRouter {
    /// Stability: the relay carries all of {Valid, Running, Fast, Stable}.
    pub fn is_stable(&self) -> (r: bool)
        ensures
            r == spec_is_stable(self@),
    {
        self.flags.contains(Flag::Valid) && self.flags.contains(Flag::Running)
            && self.flags.contains(Flag::Fast) && self.flags.contains(Flag::Stable)
    }

    /// Availability: stable and with a nonzero directory port.
    pub fn is_available(&self) -> (r: bool)
        ensures
            r == spec_is_available(self@),
    {
        self.is_stable() && self.dir_port > 0
    }
}

} // verus!
