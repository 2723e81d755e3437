use vstd::prelude::*;

use crate::clock::{now_millis, DAY_MILLIS, MAX_TIMESTAMP_MILLIS};
use crate::text::concat;

use validator::ValidateUrl;

verus! {

/// A long URL stored under a short code.
pub struct ShortenedUrl {
    /// Hex form of the store's document id, once stored.
    pub id: Option<String>,
    pub original_url: String,
    pub short_code: String,
    /// Creation time, in milliseconds since the Unix epoch.
    pub created_at: Option<i64>,
    /// Expiry time, in milliseconds since the Unix epoch; `None` never expires.
    pub expires_at: Option<i64>,
    /// Number of redirects served.
    pub clicks: i64,
    /// Id of the user who created it.
    pub user_id: Option<String>,
}

/// The expiry instant of a link created at `now` that lives `days` days.
pub open spec fn expiry_of(now: i64, days: Option<u32>) -> Option<i64> {
    match days {
        Some(d) => Some((now + d * DAY_MILLIS) as i64),
        None => None,
    }
}

/// Whether a link with expiry `expires_at` has expired at instant `now`.
pub open spec fn expired_at(expires_at: Option<i64>, now: i64) -> bool {
    match expires_at {
        Some(e) => now > e,
        None => false,
    }
}

impl ShortenedUrl {
    /// What a link freshly created at `now` holds.
    pub open spec fn created_as(
        &self,
        original_url: Seq<char>,
        short_code: Seq<char>,
        expires_in_days: Option<u32>,
        user_id: Option<String>,
        now: i64,
    ) -> bool {
        &&& self.id is None
        &&& self.original_url@ == original_url
        &&& self.short_code@ == short_code
        &&& self.created_at == Some(now)
        &&& self.expires_at == expiry_of(now, expires_in_days)
        &&& self.clicks == 0
        &&& self.user_id == user_id
    }

    /// A new link created at instant `now`, expiring `expires_in_days` days later.
    pub fn new_at(
        original_url: String,
        short_code: String,
        expires_in_days: Option<u32>,
        user_id: Option<String>,
        now: i64,
    ) -> (r: ShortenedUrl)
        requires
            -MAX_TIMESTAMP_MILLIS <= now <= MAX_TIMESTAMP_MILLIS,
        ensures
            r.created_as(original_url@, short_code@, expires_in_days, user_id, now),
    {
        let expires_at = match expires_in_days {
            Some(days) => {
                assert(days as i64 * DAY_MILLIS <= 4_294_967_295i64 * DAY_MILLIS) by (nonlinear_arith)
                    requires days <= 4_294_967_295u32;
                Some(now + days as i64 * DAY_MILLIS)
            },
            None => None,
        };
        ShortenedUrl {
            id: None,
            original_url,
            short_code,
            created_at: Some(now),
            expires_at,
            clicks: 0,
            user_id,
        }
    }

    /// A new link created now, expiring `expires_in_days` days from now.
    pub fn new(
        original_url: String,
        short_code: String,
        expires_in_days: Option<u32>,
        user_id: Option<String>,
    ) -> (r: ShortenedUrl)
        ensures
            exists|now: i64|
                -MAX_TIMESTAMP_MILLIS <= now <= MAX_TIMESTAMP_MILLIS
                && #[trigger] r.created_as(original_url@, short_code@, expires_in_days, user_id, now),
    {
        let now = now_millis();
        ShortenedUrl::new_at(original_url, short_code, expires_in_days, user_id, now)
    }

    /// A copy of the link.
    pub fn duplicate(&self) -> (r: ShortenedUrl)
        ensures
            r == *self,
    {
        ShortenedUrl {
            id: self.id.clone(),
            original_url: self.original_url.clone(),
            short_code: self.short_code.clone(),
            created_at: self.created_at,
            expires_at: self.expires_at,
            clicks: self.clicks,
            user_id: self.user_id.clone(),
        }
    }

    /// Whether the link has expired at instant `now`.
    pub fn is_expired_at(&self, now: i64) -> (r: bool)
        ensures
            r == expired_at(self.expires_at, now),
    {
        match self.expires_at {
            Some(expiry) => now > expiry,
            None => false,
        }
    }

    /// Whether the link has expired by the current time.
    pub fn is_expired(&self) -> (r: bool)
        ensures
            self.expires_at is None ==> !r,
            exists|now: i64| r == #[trigger] expired_at(self.expires_at, now),
    {
        let now = now_millis();
        self.is_expired_at(now)
    }
}

/// Whether `s` parses as an absolute URL, as the `url` crate reads URLs.
pub uninterp spec fn url_is_valid(s: Seq<char>) -> bool;

/// Relies on `validator::ValidateUrl::validate_url`, which accepts a string
/// exactly when `url::Url::parse` does; the answer depends on the text alone.
#[verifier::external_body]
pub(crate) fn validate_url(s: &str) -> (r: bool)
    ensures
        r == url_is_valid(s@),
{
    s.validate_url()
}

/// Length of a generated short code.
pub const SHORT_CODE_LEN: usize = 6;

/// Whether `c` belongs to nanoid's URL-safe alphabet.
pub open spec fn is_url_safe(c: char) -> bool {
    ('0' <= c && c <= '9') || ('a' <= c && c <= 'z') || ('A' <= c && c <= 'Z') || c == '_' || c
        == '-'
}

/// Relies on `nanoid::format` with `nanoid::rngs::default` and the
/// `nanoid::alphabet::SAFE` alphabet: a random string of `len` characters,
/// each from that alphabet (it never returns for a length of zero).
#[verifier::external_body]
fn random_code(len: usize) -> (r: String)
    requires
        0 < len <= 1024,
    ensures
        r@.len() == len,
        forall|i: int| 0 <= i < len ==> is_url_safe(#[trigger] r@[i]),
{
    nanoid::format(nanoid::rngs::default, &nanoid::alphabet::SAFE, len)
}

/// A random short code of `SHORT_CODE_LEN` URL-safe characters.
pub fn generate_short_code() -> (r: String)
    ensures
        r@.len() == SHORT_CODE_LEN,
        forall|i: int| 0 <= i < r@.len() ==> is_url_safe(#[trigger] r@[i]),
{
    random_code(SHORT_CODE_LEN)
}

/// The public redirect URL of `code` on the server at `host`.
pub open spec fn short_url_of(host: Seq<char>, code: Seq<char>) -> Seq<char> {
    host + "/r/"@ + code
}

/// The public redirect URL of `code` on the server at `host`.
pub fn short_url(host: &str, code: &str) -> (r: String)
    ensures
        r@ == short_url_of(host@, code@),
{
    let base = concat(host, "/r/");
    concat(base.as_str(), code)
}

} // verus!
