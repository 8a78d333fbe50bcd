//! Proved laws of the consensus parser, stated over the spec-level machine
//! `spec_parse` that `parse_consensus_document`'s contract is written in.

use crate::consensus::{
    found_token_of, init_scan_state, spec_complete, spec_finalize_current, spec_line_step,
    spec_parse, spec_scan, ScanState, ONION_ROUTER_LIMIT,
};
use crate::errors::ParseErrorModel;
use crate::relay::spec_is_available;
use crate::text::{split_on, tokens_of};
use vstd::prelude::*;

verus! {

/// The scan's running invariant: every retained relay is available, the
/// count respects the cap, a still-open scan is strictly below the cap, and
/// a stopped scan holds no record in progress.
pub open spec fn scan_inv(st: ScanState) -> bool {
    &&& forall|i: int|
        0 <= i < st.routers.len() ==> spec_is_available(#[trigger] st.routers[i])
    &&& st.routers.len() <= ONION_ROUTER_LIMIT as int
    &&& (!st.done ==> st.routers.len() < ONION_ROUTER_LIMIT as int)
    &&& (st.done ==> st.current is None)
}

proof fn lemma_step_inv(st: ScanState, toks: Seq<Seq<char>>)
    requires
        scan_inv(st),
        !st.done,
    ensures
        spec_line_step(st, toks) matches Ok(st2) ==> scan_inv(st2),
{
}

proof fn lemma_scan_inv(lines: Seq<Seq<char>>, st: ScanState)
    requires
        scan_inv(st),
    ensures
        spec_scan(lines, st) matches Ok(m) ==> scan_inv(m),
    decreases lines.len(),
{
    if lines.len() == 0 || st.done {
    } else {
        match spec_line_step(st, tokens_of(lines[0])) {
            Ok(st2) => {
                lemma_step_inv(st, tokens_of(lines[0]));
                lemma_scan_inv(lines.drop_first(), st2);
            },
            Err(_) => {},
        }
    }
}

/// Availability filter: a relay lacking any of {Valid, Running, Fast,
/// Stable} or offering no directory port never appears in a parsed relay
/// sequence, whatever the document holds.
pub proof fn lemma_availability_filter(doc: Seq<char>)
    ensures
        spec_parse(doc) matches Ok(c) ==> forall|i: int|
            0 <= i < c.onion_routers.len() ==> spec_is_available(#[trigger] c.onion_routers[i]),
{
    lemma_scan_inv(split_on(doc, '\n'), init_scan_state());
}

/// Cap: the parsed relay sequence never holds more than
/// `ONION_ROUTER_LIMIT` relays, however many relay blocks the document
/// holds.
pub proof fn lemma_relay_cap(doc: Seq<char>)
    ensures
        spec_parse(doc) matches Ok(c) ==> c.onion_routers.len() <= ONION_ROUTER_LIMIT as int,
{
    lemma_scan_inv(split_on(doc, '\n'), init_scan_state());
}

/// A document is well-formed in its validity window when the declared
/// `valid-after` and `valid-until` timestamps — which the parser trusts
/// from the source and does not re-check — are in order.
pub open spec fn declared_window_ordered(doc: Seq<char>) -> bool {
    match spec_scan(split_on(doc, '\n'), init_scan_state()) {
        Ok(st) => match (st.valid_after, st.valid_until) {
            (Some(a), Some(u)) => a <= u,
            _ => true,
        },
        Err(_) => true,
    }
}

/// Validity window: for every document whose declared window is ordered, a
/// successful parse yields `valid_after <= valid_until`.
pub proof fn lemma_validity_window(doc: Seq<char>)
    requires
        declared_window_ordered(doc),
    ensures
        spec_parse(doc) matches Ok(c) ==> c.valid_after <= c.valid_until,
{
}

/// Parsing is a pure function of the document text: two successful parses
/// of equal text yield field-wise equal consensus values. Together with
/// `parse_consensus_document`'s contract, which pins its result to
/// `spec_parse`, parsing the same document twice gives equal results.
pub proof fn lemma_parse_deterministic(doc1: Seq<char>, doc2: Seq<char>)
    requires
        doc1 == doc2,
    ensures
        spec_parse(doc1) == spec_parse(doc2),
{
}

/// Splitting a scan at any point: scanning all lines is scanning a prefix,
/// then scanning the rest from the state the prefix reached.
proof fn lemma_scan_split(lines: Seq<Seq<char>>, st: ScanState, i: int)
    requires
        0 <= i <= lines.len(),
    ensures
        spec_scan(lines, st) == (match spec_scan(lines.take(i), st) {
            Ok(m) => spec_scan(lines.skip(i), m),
            Err(e) => Err(e),
        }),
    decreases i,
{
    if i == 0 {
        assert(lines.take(0) =~= Seq::<Seq<char>>::empty());
        assert(lines.skip(0) =~= lines);
    } else if st.done {
    } else {
        assert(lines.take(i)[0] == lines[0]);
        match spec_line_step(st, tokens_of(lines[0])) {
            Ok(st2) => {
                lemma_scan_split(lines.drop_first(), st2, i - 1);
                assert(lines.take(i).drop_first() =~= lines.drop_first().take(i - 1));
                assert(lines.drop_first().skip(i - 1) =~= lines.skip(i));
            },
            Err(_) => {},
        }
    }
}

/// A `network-status-version` line whose version tokens are not exactly
/// `3 microdesc`.
pub open spec fn is_unsupported_version_line(toks: Seq<Seq<char>>) -> bool {
    toks.len() > 0 && toks[0] == "network-status-version"@ && !(toks.len() == 3 && toks[1] == "3"@
        && toks[2] == "microdesc"@)
}

/// Unsupported version: if the scan reaches a version line with an
/// unsupported version token — no earlier line fails, and the relay cap has
/// not already stopped the scan — the parse fails with
/// `UnsupportedDocumentFormatVersion` carrying the token found, and no
/// consensus value is produced.
pub proof fn lemma_unsupported_version(doc: Seq<char>, i: int)
    requires
        0 <= i < split_on(doc, '\n').len(),
        (spec_scan(split_on(doc, '\n').take(i), init_scan_state()) matches Ok(st) && !st.done),
        is_unsupported_version_line(tokens_of(split_on(doc, '\n')[i])),
    ensures
        (spec_parse(doc) matches Err(e) && e == ParseErrorModel::UnsupportedDocumentFormatVersion(
            found_token_of(tokens_of(split_on(doc, '\n')[i])),
        )),
{
    let lines = split_on(doc, '\n');
    lemma_scan_split(lines, init_scan_state(), i);
    let m = spec_scan(lines.take(i), init_scan_state())->Ok_0;
    assert(lines.skip(i)[0] == lines[i]);
    assert(spec_line_step(m, tokens_of(lines[i])) == Err::<ScanState, ParseErrorModel>(
        ParseErrorModel::UnsupportedDocumentFormatVersion(found_token_of(tokens_of(lines[i]))),
    ));
}

} // verus!
