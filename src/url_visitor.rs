use vstd::prelude::*;

use crate::clock::{now_millis, MAX_TIMESTAMP_MILLIS};
use crate::qr_code::is_lower_hex;
use crate::text::concat;

use sha2::Digest;

verus! {

/// One distinct visitor of a short link: a hashed address, kept once per link.
pub struct UrlVisitor {
    /// Hex form of the store's document id, once stored.
    pub id: Option<String>,
    pub short_code: String,
    /// Hash of the visitor's address.
    pub visitor_hash: String,
    /// Time of the first visit, in milliseconds since the Unix epoch.
    pub timestamp: i64,
    pub user_agent: Option<String>,
    pub referrer: Option<String>,
}

impl UrlVisitor {
    /// What a visitor record freshly made at `now` holds.
    pub open spec fn made_as(
        &self,
        short_code: Seq<char>,
        visitor_hash: Seq<char>,
        user_agent: Option<String>,
        referrer: Option<String>,
        now: i64,
    ) -> bool {
        &&& self.id is None
        &&& self.short_code@ == short_code
        &&& self.visitor_hash@ == visitor_hash
        &&& self.timestamp == now
        &&& self.user_agent == user_agent
        &&& self.referrer == referrer
    }

    /// A visitor record for a visit at instant `now`.
    pub fn new_at(
        short_code: String,
        visitor_hash: String,
        user_agent: Option<String>,
        referrer: Option<String>,
        now: i64,
    ) -> (r: UrlVisitor)
        ensures
            r.made_as(short_code@, visitor_hash@, user_agent, referrer, now),
    {
        UrlVisitor { id: None, short_code, visitor_hash, timestamp: now, user_agent, referrer }
    }

    /// A visitor record for a visit now.
    pub fn new(
        short_code: String,
        visitor_hash: String,
        user_agent: Option<String>,
        referrer: Option<String>,
    ) -> (r: UrlVisitor)
        ensures
            -MAX_TIMESTAMP_MILLIS <= r.timestamp <= MAX_TIMESTAMP_MILLIS,
            r.made_as(short_code@, visitor_hash@, user_agent, referrer, r.timestamp),
    {
        let now = now_millis();
        UrlVisitor::new_at(short_code, visitor_hash, user_agent, referrer, now)
    }
}

/// Salt appended to an address before it is hashed.
pub open spec fn ip_salt() -> Seq<char> {
    "makemeshort_salt"@
}

/// Lowercase hex of the SHA-256 digest of the UTF-8 encoding of `text`.
pub uninterp spec fn sha256_hex(text: Seq<char>) -> Seq<char>;

/// Relies on `sha2::Sha256::digest`, written out with `{:x}` as 64 lowercase
/// hex digits; the digest depends on the bytes alone.
#[verifier::external_body]
fn sha256_hex_of(text: &str) -> (r: String)
    ensures
        r@ == sha256_hex(text@),
        r@.len() == 64,
        forall|i: int| 0 <= i < 64 ==> is_lower_hex(#[trigger] r@[i]),
{
    format!("{:x}", sha2::Sha256::digest(text.as_bytes()))
}

/// The visitor hash of an address: the SHA-256 of the address followed by a
/// fixed salt, so raw addresses are never stored.
pub fn hash_ip(ip: &str) -> (r: String)
    ensures
        r@ == sha256_hex(ip@ + ip_salt()),
        r@.len() == 64,
        forall|i: int| 0 <= i < 64 ==> is_lower_hex(#[trigger] r@[i]),
{
    let salted = concat(ip, "makemeshort_salt");
    sha256_hex_of(salted.as_str())
}

} // verus!
