use vstd::prelude::*;

use crate::qr_code::QrCode;
use crate::res_owner::opt_view;
use crate::text::same_text;
use crate::url::{short_url, short_url_of, ShortenedUrl};

verus! {

/// A request to shorten a URL.
pub struct UrlRequest {
    pub url: String,
    /// A code chosen by the caller; empty or absent means a random one.
    pub custom_code: Option<String>,
    pub expires_in_days: Option<u32>,
}

/// The custom code a request asks for, if it asks for a non-empty one.
pub open spec fn requested_code(custom_code: Option<String>) -> Option<Seq<char>> {
    match custom_code {
        Some(c) => if c@.len() > 0 {
            Some(c@)
        } else {
            None
        },
        None => None,
    }
}

impl UrlRequest {
    /// The custom code the request asks for; `None` when absent or empty.
    pub fn custom(&self) -> (r: Option<&str>)
        ensures
            opt_view(r) == requested_code(self.custom_code),
    {
        match &self.custom_code {
            Some(c) => if c.as_str().is_empty() {
                None
            } else {
                Some(c.as_str())
            },
            None => None,
        }
    }
}

/// Whether a record owned by `owner` belongs to the caller `current`.
pub open spec fn owned_by(current: Option<Seq<char>>, owner: Option<String>) -> bool {
    match (current, owner) {
        (Some(c), Some(o)) => c == o@,
        _ => false,
    }
}

/// Whether a record owned by `owner` belongs to the caller `current`.
pub fn is_owned_by(current: Option<&str>, owner: &Option<String>) -> (r: bool)
    ensures
        r == owned_by(opt_view(current), *owner),
{
    match (current, owner) {
        (Some(c), Some(o)) => same_text(c, o.as_str()),
        _ => false,
    }
}

/// One row of a link listing, with its analytics and QR status.
pub struct UrlListResponse {
    pub id: Option<String>,
    pub original_url: String,
    pub short_code: String,
    pub created_at: Option<i64>,
    pub expires_at: Option<i64>,
    pub has_shortened_qr: bool,
    pub has_original_qr: bool,
    pub clicks: i64,
    pub unique_clicks: usize,
    pub owned_by_current_user: bool,
    pub user_id: Option<String>,
}

impl UrlListResponse {
    /// The listing row of `url`, given its distinct-visitor count and which
    /// QR codes exist for it, as seen by the caller `current_user`.
    pub fn from_parts(
        url: ShortenedUrl,
        unique_clicks: usize,
        has_shortened_qr: bool,
        has_original_qr: bool,
        current_user: Option<&str>,
    ) -> (r: UrlListResponse)
        ensures
            r.id == url.id,
            r.original_url == url.original_url,
            r.short_code == url.short_code,
            r.created_at == url.created_at,
            r.expires_at == url.expires_at,
            r.has_shortened_qr == has_shortened_qr,
            r.has_original_qr == has_original_qr,
            r.clicks == url.clicks,
            r.unique_clicks == unique_clicks,
            r.owned_by_current_user == owned_by(opt_view(current_user), url.user_id),
            r.user_id == url.user_id,
    {
        let owned = is_owned_by(current_user, &url.user_id);
        UrlListResponse {
            id: url.id,
            original_url: url.original_url,
            short_code: url.short_code,
            created_at: url.created_at,
            expires_at: url.expires_at,
            has_shortened_qr,
            has_original_qr,
            clicks: url.clicks,
            unique_clicks,
            owned_by_current_user: owned,
            user_id: url.user_id,
        }
    }
}

/// The answer to a shorten request.
pub struct UrlResponse {
    pub original_url: String,
    pub short_url: String,
    pub short_code: String,
    pub expires_at: Option<i64>,
    pub user_id: Option<String>,
}

impl UrlResponse {
    /// The answer for a newly stored link on the server at `host`.
    pub fn for_link(url: ShortenedUrl, host: &str) -> (r: UrlResponse)
        ensures
            r.original_url == url.original_url,
            r.short_url@ == short_url_of(host@, url.short_code@),
            r.short_code == url.short_code,
            r.expires_at == url.expires_at,
            r.user_id == url.user_id,
    {
        let s = short_url(host, url.short_code.as_str());
        UrlResponse {
            original_url: url.original_url,
            short_url: s,
            short_code: url.short_code,
            expires_at: url.expires_at,
            user_id: url.user_id,
        }
    }
}

/// Query of a link listing.
pub struct UrlSearchParams {
    /// Case-insensitive text to find in the code or the URL.
    pub search: Option<String>,
    /// List only the caller's own links.
    pub owned_only: Option<bool>,
}

/// The search text a listing query asks for, if it asks for a non-empty one.
pub fn search_term(search: &Option<String>) -> (r: Option<&str>)
    ensures
        opt_view(r) == requested_code(*search),
{
    match search {
        Some(s) => if s.as_str().is_empty() {
            None
        } else {
            Some(s.as_str())
        },
        None => None,
    }
}

/// Analytics of one link.
pub struct UrlAnalyticsResponse {
    pub short_code: String,
    pub original_url: String,
    pub created_at: Option<i64>,
    pub expires_at: Option<i64>,
    pub clicks: i64,
    pub unique_clicks: usize,
    pub has_shortened_qr: bool,
    pub has_original_qr: bool,
    pub shortened_qr_generated_at: Option<i64>,
    pub original_qr_generated_at: Option<i64>,
    pub user_id: Option<String>,
}

/// When an optional QR code was rendered.
pub open spec fn generated_at_of(qr: Option<&QrCode>) -> Option<i64> {
    match qr {
        Some(q) => Some(q.generated_at),
        None => None,
    }
}

impl UrlAnalyticsResponse {
    /// The analytics of `url`, given its distinct-visitor count and its cached
    /// QR codes of each target type.
    pub fn from_parts(
        url: ShortenedUrl,
        unique_clicks: usize,
        shortened_qr: Option<&QrCode>,
        original_qr: Option<&QrCode>,
    ) -> (r: UrlAnalyticsResponse)
        ensures
            r.short_code == url.short_code,
            r.original_url == url.original_url,
            r.created_at == url.created_at,
            r.expires_at == url.expires_at,
            r.clicks == url.clicks,
            r.unique_clicks == unique_clicks,
            r.has_shortened_qr == shortened_qr is Some,
            r.has_original_qr == original_qr is Some,
            r.shortened_qr_generated_at == generated_at_of(shortened_qr),
            r.original_qr_generated_at == generated_at_of(original_qr),
            r.user_id == url.user_id,
    {
        UrlAnalyticsResponse {
            short_code: url.short_code,
            original_url: url.original_url,
            created_at: url.created_at,
            expires_at: url.expires_at,
            clicks: url.clicks,
            unique_clicks,
            has_shortened_qr: shortened_qr.is_some(),
            has_original_qr: original_qr.is_some(),
            shortened_qr_generated_at: match shortened_qr {
                Some(q) => Some(q.generated_at),
                None => None,
            },
            original_qr_generated_at: match original_qr {
                Some(q) => Some(q.generated_at),
                None => None,
            },
            user_id: url.user_id,
        }
    }
}

} // verus!
