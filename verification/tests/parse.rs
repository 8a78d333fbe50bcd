use gants::consensus::parse_consensus_document;
use gants::errors::{ParseError, SelectionError, TimeField};
use gants::flags::Flag;
use gants::relay::Ipv4;

fn full_document() -> String {
    [
        "network-status-version 3 microdesc",
        "vote-status consensus",
        "valid-after 2024-01-01 00:00:00",
        "valid-until 2024-01-02 00:00:00",
        "r relayA AAAA BBBB 2024-01-01 10.0.0.1 9001 9030",
        "s Fast Guard Running Stable Valid",
    ]
    .join("\n")
}

#[test]
fn parses_full_document_end_to_end() {
    let c = parse_consensus_document(&full_document()).unwrap();
    assert_eq!(c.valid_after, 1704067200);
    assert_eq!(c.valid_until, 1704153600);
    assert_eq!(c.onion_routers.len(), 1);
    let r = &c.onion_routers[0];
    assert_eq!(r.nickname, "relayA");
    assert_eq!(r.ip, Ipv4(10, 0, 0, 1));
    assert_eq!(r.or_port, 9001);
    assert_eq!(r.dir_port, 9030);
    assert!(r.flags.contains(Flag::Guard));
    let chosen = c.choose_guard_relay().unwrap();
    assert_eq!(chosen.nickname, "relayA");
}

#[test]
fn validity_window_is_ordered_on_well_formed_document() {
    let c = parse_consensus_document(&full_document()).unwrap();
    assert!(c.valid_after <= c.valid_until);
}

#[test]
fn relay_without_valid_flag_is_excluded() {
    let doc = full_document().replace(
        "s Fast Guard Running Stable Valid",
        "s Fast Guard Running Stable",
    );
    let c = parse_consensus_document(&doc).unwrap();
    assert_eq!(c.onion_routers.len(), 0);
    assert_eq!(
        c.choose_guard_relay().unwrap_err(),
        SelectionError::NoGuardFound
    );
}

#[test]
fn relay_without_dir_port_is_excluded() {
    let doc = full_document().replace(
        "r relayA AAAA BBBB 2024-01-01 10.0.0.1 9001 9030",
        "r relayA AAAA BBBB 2024-01-01 10.0.0.1 9001 0",
    );
    let c = parse_consensus_document(&doc).unwrap();
    assert_eq!(c.onion_routers.len(), 0);
}

#[test]
fn unknown_flag_fails_with_its_label() {
    let doc = full_document().replace(
        "s Fast Guard Running Stable Valid",
        "s Fast BogusFlag",
    );
    let err = parse_consensus_document(&doc).unwrap_err();
    assert_eq!(err, ParseError::UnknownFlag("BogusFlag".to_string()));
}

#[test]
fn unsupported_version_fails_with_found_token() {
    let doc = full_document().replace(
        "network-status-version 3 microdesc",
        "network-status-version 4 microdesc",
    );
    let err = parse_consensus_document(&doc).unwrap_err();
    assert_eq!(
        err,
        ParseError::UnsupportedDocumentFormatVersion("4".to_string())
    );
}

#[test]
fn non_microdesc_variant_is_unsupported() {
    let doc = full_document().replace(
        "network-status-version 3 microdesc",
        "network-status-version 3",
    );
    let err = parse_consensus_document(&doc).unwrap_err();
    assert_eq!(
        err,
        ParseError::UnsupportedDocumentFormatVersion("3".to_string())
    );
}

#[test]
fn unexpected_vote_status_fails_with_found_token() {
    let doc = full_document().replace("vote-status consensus", "vote-status vote");
    let err = parse_consensus_document(&doc).unwrap_err();
    assert_eq!(err, ParseError::UnexpectedVoteStatus("vote".to_string()));
}

#[test]
fn missing_valid_after_is_reported() {
    let doc = full_document().replace("valid-after 2024-01-01 00:00:00\n", "");
    let err = parse_consensus_document(&doc).unwrap_err();
    assert_eq!(err, ParseError::MissingField(TimeField::ValidAfter));
}

#[test]
fn missing_valid_until_is_reported() {
    let doc = full_document().replace("valid-until 2024-01-02 00:00:00\n", "");
    let err = parse_consensus_document(&doc).unwrap_err();
    assert_eq!(err, ParseError::MissingField(TimeField::ValidUntil));
}

#[test]
fn malformed_timestamp_is_reported_with_its_field() {
    let doc = full_document().replace(
        "valid-after 2024-01-01 00:00:00",
        "valid-after 2024-13-01 00:00:00",
    );
    let err = parse_consensus_document(&doc).unwrap_err();
    assert!(matches!(
        err,
        ParseError::DateTimeParseError(TimeField::ValidAfter, _)
    ));
}

#[test]
fn short_relay_line_is_malformed() {
    let doc = full_document().replace(
        "r relayA AAAA BBBB 2024-01-01 10.0.0.1 9001 9030",
        "r relayA AAAA BBBB 2024-01-01 10.0.0.1 9001",
    );
    let err = parse_consensus_document(&doc).unwrap_err();
    assert_eq!(err, ParseError::MalformedRelayLine);
}

#[test]
fn bad_address_is_malformed() {
    let doc = full_document().replace("10.0.0.1", "10.0.0.256");
    let err = parse_consensus_document(&doc).unwrap_err();
    assert_eq!(err, ParseError::MalformedRelayLine);
}

#[test]
fn bad_port_is_malformed() {
    let doc = full_document().replace("9001 9030", "9001 70000");
    let err = parse_consensus_document(&doc).unwrap_err();
    assert_eq!(err, ParseError::MalformedRelayLine);
}

#[test]
fn flag_line_without_relay_is_malformed() {
    let doc = ["vote-status consensus", "s Fast Guard"].join("\n");
    let err = parse_consensus_document(&doc).unwrap_err();
    assert_eq!(err, ParseError::MalformedRelayLine);
}

#[test]
fn unrecognized_keywords_and_empty_lines_are_ignored() {
    let doc = format!(
        "preamble x y\n\n{}\nconsensus-method 30\n",
        full_document()
    );
    let c = parse_consensus_document(&doc).unwrap();
    assert_eq!(c.onion_routers.len(), 1);
}

#[test]
fn parsing_twice_yields_equal_consensus() {
    let doc = full_document();
    let c1 = parse_consensus_document(&doc).unwrap();
    let c2 = parse_consensus_document(&doc).unwrap();
    assert_eq!(c1, c2);
}

#[test]
fn relays_keep_first_seen_order() {
    let doc = [
        "network-status-version 3 microdesc",
        "vote-status consensus",
        "valid-after 2024-01-01 00:00:00",
        "valid-until 2024-01-02 00:00:00",
        "r alpha AAAA BBBB 2024-01-01 10.0.0.1 9001 9030",
        "s Fast Running Stable Valid",
        "r beta AAAA BBBB 2024-01-01 10.0.0.2 9001 9030",
        "s Fast Running Stable Valid",
    ]
    .join("\n");
    let c = parse_consensus_document(&doc).unwrap();
    assert_eq!(c.onion_routers.len(), 2);
    assert_eq!(c.onion_routers[0].nickname, "alpha");
    assert_eq!(c.onion_routers[1].nickname, "beta");
}

#[test]
fn relay_count_is_capped_at_one_hundred() {
    let mut doc = String::new();
    doc.push_str("network-status-version 3 microdesc\n");
    doc.push_str("vote-status consensus\n");
    doc.push_str("valid-after 2024-01-01 00:00:00\n");
    doc.push_str("valid-until 2024-01-02 00:00:00\n");
    for i in 0..150 {
        doc.push_str(&format!(
            "r relay{} AAAA BBBB 2024-01-01 10.0.0.1 9001 9030\n",
            i
        ));
        doc.push_str("s Fast Guard Running Stable Valid\n");
    }
    let c = parse_consensus_document(&doc).unwrap();
    assert_eq!(c.onion_routers.len(), 100);
}

#[test]
fn lines_after_the_cap_are_not_processed() {
    let mut doc = String::new();
    doc.push_str("network-status-version 3 microdesc\n");
    doc.push_str("vote-status consensus\n");
    doc.push_str("valid-after 2024-01-01 00:00:00\n");
    doc.push_str("valid-until 2024-01-02 00:00:00\n");
    for i in 0..101 {
        doc.push_str(&format!(
            "r relay{} AAAA BBBB 2024-01-01 10.0.0.1 9001 9030\n",
            i
        ));
        doc.push_str("s Fast Guard Running Stable Valid\n");
    }
    // Once the cap is reached, the scan stops: a line that would otherwise
    // fail the parse is never seen.
    doc.push_str("s OutOfVocabulary\n");
    let c = parse_consensus_document(&doc).unwrap();
    assert_eq!(c.onion_routers.len(), 100);
}

#[test]
fn leading_zero_octet_is_malformed() {
    let doc = full_document().replace("10.0.0.1", "010.0.0.1");
    let err = parse_consensus_document(&doc).unwrap_err();
    assert_eq!(err, ParseError::MalformedRelayLine);
}

#[test]
fn single_zero_octet_is_accepted() {
    let doc = full_document().replace("10.0.0.1", "10.0.0.0");
    let c = parse_consensus_document(&doc).unwrap();
    assert_eq!(c.onion_routers[0].ip, Ipv4(10, 0, 0, 0));
}
