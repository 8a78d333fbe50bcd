//! The time-bounded local cache for the last fetched consensus document.
//!
//! Two independent writes under two fixed logical keys — the raw body, and
//! the expiry timestamp as RFC 3339 text — in a filesystem-backed content
//! store whose root is passed in explicitly. The two writes are not atomic:
//! a crash between them can leave a body with a stale expiry record, which
//! at worst causes a spurious miss or a re-fetch, never a wrong freshness
//! verdict against the record that is read.
//!
//! The contracts are stated over a ghost model of the two records, as
//! established through this handle: a record is `Unknown` until a write
//! through this handle succeeds, and `Holds` the written text afterwards.
//! The model — and so every contract that speaks through it — describes a
//! store that nothing else modifies between the write and the read; the
//! design runs a single pipeline, and concurrent writers to the same root
//! are explicitly unguarded.

use crate::errors::CacheError;
use crate::time::{
    format_rfc3339, is_rfc3339_representable, parse_rfc3339, rfc3339_of, rfc3339_representable,
    rfc3339_value_of,
};
use vstd::prelude::*;

verus! {

/// One logical record of the store, as known through this handle.
pub enum RecordModel {
    /// Nothing is known: the record was never written through this handle,
    /// or its last write through this handle failed.
    Unknown,
    /// The last write through this handle succeeded and stored this text.
    Holds(Seq<char>),
}

/// The two records of the store, as known through this handle.
pub struct StoreModel {
    pub body: RecordModel,
    pub expiry: RecordModel,
}

/// The string decoded from a byte sequence, if the bytes are valid UTF-8;
/// the outcome depends on the bytes alone.
pub uninterp spec fn utf8_of(bytes: Seq<u8>) -> Option<Seq<char>>;

/// The decoder returns exactly the character sequence whose UTF-8 encoding
/// the bytes are, whenever they are such an encoding.
pub open spec fn decodes_encoding(bytes: Seq<u8>, r: Option<String>) -> bool {
    forall|cs: Seq<char>|
        bytes == vstd::utf8::encode_utf8(cs) ==> (r matches Some(s) && s@ == cs)
}

/// A read result reflects a known record: the record's text came back as
/// exactly its UTF-8 bytes.
pub open spec fn read_reflects(rec: RecordModel, r: Option<Vec<u8>>) -> bool {
    rec matches RecordModel::Holds(cs) ==> (r matches Some(b) && b@ == vstd::utf8::encode_utf8(
        cs,
    ))
}

/// Relies on `String::from_utf8`: yields the string exactly when the bytes
/// are valid UTF-8, and on the UTF-8 encoding of any character sequence it
/// yields back that sequence.
#[verifier::external_body]
fn bytes_to_string(bytes: Vec<u8>) -> (r: Option<String>)
    ensures
        r matches Some(s) ==> utf8_of(bytes@) == Some(s@),
        r is None ==> utf8_of(bytes@) is None,
        decodes_encoding(bytes@, r),
{
    String::from_utf8(bytes).ok()
}

/// A stored document body is fresh at `now` exactly when `now` does not
/// exceed its recorded expiry.
pub open spec fn spec_is_fresh(valid_until: i64, now: i64) -> bool {
    now <= valid_until
}

/// The freshness verdict the cache hands out: `now <= valid_until`.
pub fn is_fresh(valid_until: i64, now: i64) -> (r: bool)
    ensures
        r == spec_is_fresh(valid_until, now),
{
    now <= valid_until
}

/// What `get` owes at `now` for known records: the body text exactly when
/// the expiry text reads back as a timestamp not earlier than `now`,
/// nothing otherwise.
pub open spec fn spec_cache_verdict(
    expiry_text: Seq<char>,
    body_text: Seq<char>,
    now: i64,
) -> Option<Seq<char>> {
    match rfc3339_value_of(expiry_text) {
        Some(t) => {
            if spec_is_fresh(t, now) {
                Some(body_text)
            } else {
                None
            }
        },
        None => None,
    }
}

/// Cache round trip: for a store reflecting a completed `put` of `body`
/// with an expiry text reading back as `t`, and nothing written since, the
/// verdict that `get`'s contract enforces is the body exactly when
/// `now <= t`, and a miss when `now > t`.
pub proof fn lemma_cache_round_trip(
    m: StoreModel,
    body: Seq<char>,
    es: Seq<char>,
    t: i64,
    now: i64,
)
    requires
        m.body == RecordModel::Holds(body),
        m.expiry == RecordModel::Holds(es),
        rfc3339_value_of(es) == Some(t),
    ensures
        now <= t ==> spec_cache_verdict(es, body, now) == Some(body),
        now > t ==> spec_cache_verdict(es, body, now) is None,
{
}

/// The filesystem-backed consensus cache, rooted at an explicit directory.
/// It holds exactly two logical records: the raw document body and its
/// expiry timestamp. No in-memory state is kept; every call touches the
/// store.
pub struct ConsensusCache {
    root: String,
    store: Ghost<StoreModel>,
}

impl View for ConsensusCache {
    type V = StoreModel;

    closed spec fn view(&self) -> StoreModel {
        self.store@
    }
}

impl ConsensusCache {
    /// The root directory the cache was made with.
    pub closed spec fn root_view(&self) -> Seq<char> {
        self.root@
    }

    /// A cache rooted at the given directory. Nothing is known of the
    /// store's records until a write through this handle succeeds.
    pub fn new(root: String) -> (r: ConsensusCache)
        ensures
            r.root_view() == root@,
            r@.body is Unknown,
            r@.expiry is Unknown,
    {
        ConsensusCache {
            root,
            store: Ghost(StoreModel { body: RecordModel::Unknown, expiry: RecordModel::Unknown }),
        }
    }

    /// Relies on `cacache::write_sync`: stores `data` under `key` in the
    /// store rooted at this cache's root, reporting success. A successful
    /// write establishes the written record of the model; a failed write
    /// leaves it unknown; the other record is untouched either way.
    #[verifier::external_body]
    fn store_write(&mut self, key: &str, data: &str) -> (r: bool)
        ensures
            final(self).root_view() == old(self).root_view(),
            r && key@ == "consensus_document_body"@ ==> final(self)@.body == RecordModel::Holds(
                data@,
            ),
            r && key@ == "consensus_document_valid_until"@ ==> final(self)@.expiry
                == RecordModel::Holds(data@),
            !r && key@ == "consensus_document_body"@ ==> final(self)@.body is Unknown,
            !r && key@ == "consensus_document_valid_until"@ ==> final(self)@.expiry is Unknown,
            key@ != "consensus_document_body"@ ==> final(self)@.body == old(self)@.body,
            key@ != "consensus_document_valid_until"@ ==> final(self)@.expiry == old(
                self,
            )@.expiry,
    {
        cacache::write_sync(&self.root, key, data).is_ok()
    }

    /// Relies on `cacache::read_sync`: the bytes stored under `key`, or
    /// nothing when the entry is missing or unreadable. A record the model
    /// knows — written through this handle, with the store undisturbed
    /// since — reads back as exactly the UTF-8 bytes of its text; of an
    /// unknown record nothing is promised.
    #[verifier::external_body]
    fn store_read(&self, key: &str) -> (r: Option<Vec<u8>>)
        ensures
            key@ == "consensus_document_body"@ ==> read_reflects(self@.body, r),
            key@ == "consensus_document_valid_until"@ ==> read_reflects(self@.expiry, r),
    {
        cacache::read_sync(&self.root, key).ok()
    }

    /// Persists the raw document body and its expiry timestamp under the
    /// two fixed keys, as two independent writes (body first). A timestamp
    /// whose RFC 3339 text would not read back — its UTC year outside
    /// 0000–9999 — is rejected before anything is written, if and only if;
    /// a failed store write is `WriteFailed`. On success the model holds
    /// the body text and an expiry text that reads back as `valid_until`.
    pub fn put(&mut self, body: &str, valid_until: i64) -> (r: Result<(), CacheError>)
        ensures
            (r matches Err(e) && e == CacheError::TimestampOutOfRange) <==> !rfc3339_representable(
                valid_until,
            ),
            r is Ok ==> final(self)@.body == RecordModel::Holds(body@),
            r is Ok ==> (final(self)@.expiry matches RecordModel::Holds(es) && es == rfc3339_of(
                valid_until,
            ) && rfc3339_value_of(es) == Some(valid_until)),
    {
        if !is_rfc3339_representable(valid_until) {
            return Err(CacheError::TimestampOutOfRange);
        }
        let expiry = format_rfc3339(valid_until).unwrap();
        if !self.store_write("consensus_document_body", body) {
            return Err(CacheError::WriteFailed);
        }
        if !self.store_write("consensus_document_valid_until", expiry.as_str()) {
            return Err(CacheError::WriteFailed);
        }
        proof {
            // The two record keys are distinct texts, so the expiry write
            // preserves the body record.
            reveal_strlit("consensus_document_body");
            reveal_strlit("consensus_document_valid_until");
            assert("consensus_document_body"@.len() == 23);
            assert("consensus_document_valid_until"@.len() == 30);
            assert("consensus_document_body"@ != "consensus_document_valid_until"@);
        }
        Ok(())
    }

    /// The stored body, if the store holds an expiry record that reads back
    /// as a timestamp not earlier than `now` and a readable body; a
    /// missing, unreadable or expired record is a plain miss, with no
    /// distinction surfaced. For records the model knows, the result is
    /// exactly `spec_cache_verdict` of the two texts at `now`.
    pub fn get(&self, now: i64) -> (r: Option<String>)
        ensures
            self@.expiry is Holds && self@.body is Holds ==> (match spec_cache_verdict(
                self@.expiry->Holds_0,
                self@.body->Holds_0,
                now,
            ) {
                Some(b) => r matches Some(s) && s@ == b,
                None => r is None,
            }),
    {
        let expiry_read = self.store_read("consensus_document_valid_until");
        proof {
            assert(read_reflects(self@.expiry, expiry_read));
        }
        let expiry_bytes = match expiry_read {
            Some(b) => b,
            None => {
                return None;
            },
        };
        let expiry_decoded = bytes_to_string(expiry_bytes);
        let expiry_text = match expiry_decoded {
            Some(s) => s,
            None => {
                return None;
            },
        };
        let valid_until = match parse_rfc3339(expiry_text.as_str()) {
            Some(t) => t,
            None => {
                return None;
            },
        };
        if !is_fresh(valid_until, now) {
            return None;
        }
        let body_read = self.store_read("consensus_document_body");
        proof {
            assert(read_reflects(self@.body, body_read));
        }
        let body_bytes = match body_read {
            Some(b) => b,
            None => {
                return None;
            },
        };
        bytes_to_string(body_bytes)
    }
}

} // verus!
