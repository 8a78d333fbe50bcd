//! The closed error taxonomy: structured parse failures, selection failures,
//! and cache-write failures. Untrusted document content never aborts the
//! process; every malformed input maps to one of these values.

use vstd::prelude::*;

verus! {

/// The two required timestamp fields of a consensus document.
#[derive(Clone, Copy, Debug, PartialEq, Eq, Structural)]
pub enum TimeField {
    ValidAfter,
    ValidUntil,
}

/// A structured parse failure.
#[derive(Debug, Clone, PartialEq)]
pub enum ParseError {
    /// A `network-status-version` line was present but not `3 microdesc`;
    /// carries the version token that was found (empty when absent).
    UnsupportedDocumentFormatVersion(String),
    /// A `vote-status` line was present but not `consensus`; carries the
    /// status token that was found (empty when absent).
    UnexpectedVoteStatus(String),
    /// A `valid-after` or `valid-until` line whose value does not parse in
    /// the `YYYY-MM-DD HH:MM:SS` format, or with the wrong token count;
    /// carries a free-text cause from the date-time library.
    DateTimeParseError(TimeField, String),
    /// A required timestamp field never appeared.
    MissingField(TimeField),
    /// An `s` line token outside the closed flag vocabulary.
    UnknownFlag(String),
    /// An `r` or `s` line missing required tokens, with an unparseable
    /// address or port, or an `s` line with no relay record in progress.
    MalformedRelayLine,
}

/// The mathematical shape of a parse failure. The free-text cause attached
/// to a timestamp failure comes from the date-time library and is not
/// modeled.
pub enum ParseErrorModel {
    UnsupportedDocumentFormatVersion(Seq<char>),
    UnexpectedVoteStatus(Seq<char>),
    DateTimeParseError(TimeField),
    MissingField(TimeField),
    UnknownFlag(Seq<char>),
    MalformedRelayLine,
}

impl View for ParseError {
    type V = ParseErrorModel;

    open spec fn view(&self) -> ParseErrorModel {
        match self {
            ParseError::UnsupportedDocumentFormatVersion(s) => {
                ParseErrorModel::UnsupportedDocumentFormatVersion(s@)
            },
            ParseError::UnexpectedVoteStatus(s) => ParseErrorModel::UnexpectedVoteStatus(s@),
            ParseError::DateTimeParseError(f, _) => ParseErrorModel::DateTimeParseError(*f),
            ParseError::MissingField(f) => ParseErrorModel::MissingField(*f),
            ParseError::UnknownFlag(s) => ParseErrorModel::UnknownFlag(s@),
            ParseError::MalformedRelayLine => ParseErrorModel::MalformedRelayLine,
        }
    }
}

/// A selection failure: the sampling budget ran out without finding an
/// eligible relay.
#[derive(Clone, Copy, Debug, PartialEq, Eq, Structural)]
pub enum SelectionError {
    NoGuardFound,
}

/// A cache-write failure, surfaced to the caller instead of aborting.
#[derive(Clone, Copy, Debug, PartialEq, Eq, Structural)]
pub enum CacheError {
    /// The expiry timestamp is outside the range the date-time library can
    /// represent.
    TimestampOutOfRange,
    /// One of the two store writes failed.
    WriteFailed,
}

} // verus!
