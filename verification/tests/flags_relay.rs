use gants::errors::ParseError;
use gants::flags::{Flag, Flags};
use gants::relay::{Ipv4, OnionRouter};

fn router_with(flags: &[Flag], dir_port: u16) -> OnionRouter {
    let mut set = Flags::empty();
    for f in flags {
        set.insert(*f);
    }
    OnionRouter {
        nickname: "relayA".to_string(),
        ip: Ipv4(10, 0, 0, 1),
        or_port: 9001,
        dir_port,
        flags: set,
    }
}

#[test]
fn every_label_of_the_vocabulary_maps_to_its_flag() {
    let cases = [
        ("Authority", Flag::Authority),
        ("BadExit", Flag::BadExit),
        ("Exit", Flag::Exit),
        ("Fast", Flag::Fast),
        ("Guard", Flag::Guard),
        ("HSDir", Flag::HSDir),
        ("MiddleOnly", Flag::MiddleOnly),
        ("NoEdConsensus", Flag::NoEdConsensus),
        ("Stable", Flag::Stable),
        ("StaleDesc", Flag::StaleDesc),
        ("Running", Flag::Running),
        ("Valid", Flag::Valid),
        ("V2Dir", Flag::V2Dir),
    ];
    for (label, flag) in cases {
        assert_eq!(Flag::from_label(label).unwrap(), flag);
    }
}

#[test]
fn labels_are_case_sensitive_and_closed() {
    assert_eq!(
        Flag::from_label("guard").unwrap_err(),
        ParseError::UnknownFlag("guard".to_string())
    );
    assert_eq!(
        Flag::from_label("").unwrap_err(),
        ParseError::UnknownFlag("".to_string())
    );
}

#[test]
fn empty_set_contains_nothing() {
    let set = Flags::empty();
    assert!(!set.contains(Flag::Guard));
    assert!(!set.contains(Flag::Valid));
}

#[test]
fn insert_adds_exactly_the_given_flag() {
    let mut set = Flags::empty();
    set.insert(Flag::Guard);
    assert!(set.contains(Flag::Guard));
    assert!(!set.contains(Flag::Exit));
    set.insert(Flag::Exit);
    assert!(set.contains(Flag::Guard));
    assert!(set.contains(Flag::Exit));
}

#[test]
fn union_holds_the_flags_of_both_sets() {
    let mut left = Flags::empty();
    left.insert(Flag::Fast);
    let mut right = Flags::empty();
    right.insert(Flag::Guard);
    let both = left.union(right);
    assert!(both.contains(Flag::Fast));
    assert!(both.contains(Flag::Guard));
    assert!(!both.contains(Flag::Exit));
    assert!(both.contains_all(left));
    assert!(both.contains_all(right));
}

#[test]
fn contains_all_is_a_subset_test() {
    let mut small = Flags::empty();
    small.insert(Flag::Fast);
    small.insert(Flag::Valid);
    let mut big = Flags::empty();
    big.insert(Flag::Fast);
    big.insert(Flag::Valid);
    big.insert(Flag::Running);
    assert!(big.contains_all(small));
    assert!(big.contains_all(Flags::empty()));
    assert!(!small.contains_all(big));
}

#[test]
fn stability_needs_all_four_flags() {
    let stable = router_with(
        &[Flag::Valid, Flag::Running, Flag::Fast, Flag::Stable],
        9030,
    );
    assert!(stable.is_stable());
    let missing_valid = router_with(&[Flag::Running, Flag::Fast, Flag::Stable], 9030);
    assert!(!missing_valid.is_stable());
    let missing_running = router_with(&[Flag::Valid, Flag::Fast, Flag::Stable], 9030);
    assert!(!missing_running.is_stable());
}

#[test]
fn availability_needs_stability_and_a_dir_port() {
    let available = router_with(
        &[Flag::Valid, Flag::Running, Flag::Fast, Flag::Stable],
        9030,
    );
    assert!(available.is_available());
    let no_dir_port = router_with(
        &[Flag::Valid, Flag::Running, Flag::Fast, Flag::Stable],
        0,
    );
    assert!(!no_dir_port.is_available());
    let unstable = router_with(&[Flag::Valid, Flag::Running], 9030);
    assert!(!unstable.is_available());
}
