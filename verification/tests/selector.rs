use gants::consensus::Consensus;
use gants::errors::SelectionError;
use gants::flags::{Flag, Flags};
use gants::relay::{Ipv4, OnionRouter};

fn router(nickname: &str, with_guard: bool) -> OnionRouter {
    let mut flags = Flags::empty();
    flags.insert(Flag::Valid);
    flags.insert(Flag::Running);
    flags.insert(Flag::Fast);
    flags.insert(Flag::Stable);
    if with_guard {
        flags.insert(Flag::Guard);
    }
    OnionRouter {
        nickname: nickname.to_string(),
        ip: Ipv4(10, 0, 0, 1),
        or_port: 9001,
        dir_port: 9030,
        flags,
    }
}

fn consensus_of(routers: Vec<OnionRouter>) -> Consensus {
    Consensus {
        valid_after: 1704067200,
        valid_until: 1704153600,
        onion_routers: routers,
    }
}

#[test]
fn single_guard_relay_is_chosen_deterministically() {
    let c = consensus_of(vec![router("only", true)]);
    for _ in 0..20 {
        assert_eq!(c.choose_guard_relay().unwrap().nickname, "only");
    }
}

#[test]
fn chosen_relay_always_carries_the_guard_flag() {
    let mut routers = Vec::new();
    for i in 0..50 {
        routers.push(router(&format!("relay{}", i), i % 2 == 0));
    }
    let c = consensus_of(routers);
    for _ in 0..20 {
        if let Ok(r) = c.choose_guard_relay() {
            assert!(r.flags.contains(Flag::Guard));
        }
    }
}

#[test]
fn all_guards_always_succeeds() {
    let mut routers = Vec::new();
    for i in 0..100 {
        routers.push(router(&format!("relay{}", i), true));
    }
    let c = consensus_of(routers);
    for _ in 0..20 {
        assert!(c.choose_guard_relay().is_ok());
    }
}

#[test]
fn no_guard_relay_fails_within_the_budget() {
    let c = consensus_of(vec![router("a", false), router("b", false)]);
    assert_eq!(
        c.choose_guard_relay().unwrap_err(),
        SelectionError::NoGuardFound
    );
}

#[test]
fn empty_consensus_fails_without_sampling() {
    let c = consensus_of(Vec::new());
    assert_eq!(
        c.choose_guard_relay().unwrap_err(),
        SelectionError::NoGuardFound
    );
}

#[test]
fn last_relay_of_the_sequence_is_reachable() {
    // The sampling range covers the full index range: with the only guard
    // in the last slot, the selector still finds it (overwhelmingly often
    // within the fixed budget).
    let mut routers = Vec::new();
    for i in 0..10 {
        routers.push(router(&format!("relay{}", i), i == 9));
    }
    let c = consensus_of(routers);
    let mut hits = 0;
    for _ in 0..20 {
        if let Ok(r) = c.choose_guard_relay() {
            assert_eq!(r.nickname, "relay9");
            hits += 1;
        }
    }
    assert!(hits > 0);
}
