use vstd::prelude::*;

use crate::qr_code::{direct_prefix, target_filter_of, QrCode, TargetType};
use crate::qr_request::QrSearchParams;
use crate::res_owner::opt_view;
use crate::text::{is_prefix, matches_search, same_text, starts_with, text_matches};
use crate::url::ShortenedUrl;
use crate::url_request::{requested_code, search_term, UrlSearchParams};

verus! {

/// The view of an optional string.
pub open spec fn opt_string(s: Option<String>) -> Option<Seq<char>> {
    match s {
        Some(t) => Some(t@),
        None => None,
    }
}

/// What a link listing selects.
pub struct UrlFilter {
    /// Text the code or the original URL must contain, letter case aside.
    pub search: Option<String>,
    /// The user the links must belong to.
    pub owner: Option<String>,
}

/// What a QR code listing selects.
pub struct QrFilter {
    /// A regular expression the code or the original URL must match,
    /// letter case aside.
    pub search: Option<String>,
    pub target: Option<TargetType>,
    /// Only QR codes made straight from a URL.
    pub direct_only: bool,
    /// The user the QR codes must belong to.
    pub owner: Option<String>,
}

/// Whether a record with `code`, `url` and `owner` passes a search for
/// `search` by the owner `wanted`.
pub open spec fn passes(
    search: Option<String>,
    wanted: Option<String>,
    code: Seq<char>,
    url: Seq<char>,
    owner: Option<String>,
) -> bool {
    &&& match search {
        Some(s) => text_matches(code, s@) || text_matches(url, s@),
        None => true,
    }
    &&& match wanted {
        Some(w) => owner is Some && owner->0@ == w@,
        None => true,
    }
}

/// Whether the link listing `f` selects `u`.
pub open spec fn url_selected(f: UrlFilter, u: ShortenedUrl) -> bool {
    passes(f.search, f.owner, u.short_code@, u.original_url@, u.user_id)
}

/// Whether the regular expression `pattern`, read without regard to letter
/// case, matches somewhere in `text`; `None` when `pattern` is not a valid
/// expression.
pub uninterp spec fn regex_verdict(pattern: Seq<char>, text: Seq<char>) -> Option<bool>;

/// Relies on `regex::RegexBuilder::new(..).case_insensitive(true).build()`
/// and `Regex::is_match`: building fails on an invalid pattern, and the
/// answer depends on the pattern and the text alone.
#[verifier::external_body]
fn regex_matches(pattern: &str, text: &str) -> (r: Option<bool>)
    ensures
        r == regex_verdict(pattern@, text@),
{
    match regex::RegexBuilder::new(pattern).case_insensitive(true).build() {
        Ok(re) => Some(re.is_match(text)),
        Err(_) => None,
    }
}

/// Whether the pattern `pattern` matches the code or, failing that, the URL;
/// `None` when the pattern is invalid.
pub open spec fn pattern_hit(pattern: Seq<char>, code: Seq<char>, url: Seq<char>) -> Option<bool> {
    match regex_verdict(pattern, code) {
        None => None,
        Some(true) => Some(true),
        Some(false) => regex_verdict(pattern, url),
    }
}

/// Whether `q` passes the QR listing's filters other than the search.
pub open spec fn qr_passes_flags(f: QrFilter, q: QrCode) -> bool {
    &&& passes(None, f.owner, q.short_code@, q.original_url@, q.user_id)
    &&& (f.target is Some ==> q.target_type == f.target->0)
    &&& (f.direct_only ==> is_prefix(direct_prefix(), q.short_code@))
}

/// Whether the QR listing `f` selects `q`; `None` when its search pattern is
/// not a valid regular expression.
pub open spec fn qr_check(f: QrFilter, q: QrCode) -> Option<bool> {
    match f.search {
        None => Some(qr_passes_flags(f, q)),
        Some(s) => match pattern_hit(s@, q.short_code@, q.original_url@) {
            None => None,
            Some(hit) => Some(hit && qr_passes_flags(f, q)),
        },
    }
}

/// Whether the QR listing `f` selects `q`.
pub open spec fn qr_selected(f: QrFilter, q: QrCode) -> bool {
    qr_check(f, q) == Some(true)
}

/// The optional string a search parameter carries, copied.
fn copy_term(term: Option<&str>) -> (r: Option<String>)
    ensures
        opt_string(r) == opt_view(term),
{
    match term {
        Some(t) => Some(t.to_owned()),
        None => None,
    }
}

/// Whether a record passes a search and owner test.
fn record_passes(
    search: &Option<String>,
    wanted: &Option<String>,
    code: &str,
    url: &str,
    owner: &Option<String>,
) -> (r: bool)
    ensures
        r == passes(*search, *wanted, code@, url@, *owner),
{
    let found = match search {
        Some(s) => matches_search(code, s.as_str()) || matches_search(url, s.as_str()),
        None => true,
    };
    if !found {
        return false;
    }
    match wanted {
        Some(w) => match owner {
            Some(o) => same_text(o.as_str(), w.as_str()),
            None => false,
        },
        None => true,
    }
}

impl UrlFilter {
    /// Whether the listing selects `u`.
    pub fn selects(&self, u: &ShortenedUrl) -> (r: bool)
        ensures
            r == url_selected(*self, *u),
    {
        record_passes(&self.search, &self.owner, u.short_code.as_str(), u.original_url.as_str(), &u.user_id)
    }
}

impl QrFilter {
    /// Whether the listing selects `q`; `None` when the search pattern is
    /// not a valid regular expression.
    pub fn selects(&self, q: &QrCode) -> (r: Option<bool>)
        ensures
            r == qr_check(*self, *q),
    {
        let hit = match &self.search {
            None => true,
            Some(s) => {
                let on_code = match regex_matches(s.as_str(), q.short_code.as_str()) {
                    Some(b) => b,
                    None => {
                        return None;
                    },
                };
                if on_code {
                    true
                } else {
                    match regex_matches(s.as_str(), q.original_url.as_str()) {
                        Some(b) => b,
                        None => {
                            return None;
                        },
                    }
                }
            },
        };
        if !hit {
            return Some(false);
        }
        if !record_passes(&None, &self.owner, q.short_code.as_str(), q.original_url.as_str(), &q.user_id) {
            return Some(false);
        }
        if let Some(t) = self.target {
            if q.target_type != t {
                return Some(false);
            }
        }
        if self.direct_only && !starts_with(q.short_code.as_str(), "direct-") {
            return Some(false);
        }
        Some(true)
    }
}

/// The listing of all links for the caller `current_user`: a non-empty
/// search narrows it, and `owned_only` keeps the caller's own links when
/// the caller is known.
pub fn get_all_urls(params: &UrlSearchParams, current_user: Option<&str>) -> (r: UrlFilter)
    ensures
        opt_string(r.search) == requested_code(params.search),
        r.owner is Some <==> (params.owned_only == Some(true) && current_user is Some),
        r.owner is Some ==> r.owner->0@ == current_user->0@,
{
    let search = copy_term(search_term(&params.search));
    let owned_only = match params.owned_only {
        Some(b) => b,
        None => false,
    };
    let owner = if owned_only {
        copy_term(current_user)
    } else {
        None
    };
    UrlFilter { search, owner }
}

/// The listing of the links of `user_id`, narrowed by a non-empty search.
pub fn get_user_urls(user_id: &str, params: &UrlSearchParams) -> (r: UrlFilter)
    ensures
        opt_string(r.search) == requested_code(params.search),
        r.owner is Some && r.owner->0@ == user_id@,
{
    UrlFilter { search: copy_term(search_term(&params.search)), owner: Some(user_id.to_owned()) }
}

/// The target type filter of a QR listing query: only a valid name filters.
fn target_of(params: &QrSearchParams) -> (r: Option<TargetType>)
    ensures
        r == match params.target_type {
            Some(t) => target_filter_of(t@),
            None => None,
        },
{
    params.target_filter()
}

/// The listing of all QR codes for the caller `current_user`: narrowed by a
/// non-empty search pattern, a valid target type, `direct_only`, and with
/// `owned_only` to the caller's own when the caller is known.
pub fn get_all_qr_codes(params: &QrSearchParams, current_user: Option<&str>) -> (r: QrFilter)
    ensures
        opt_string(r.search) == requested_code(params.search),
        r.target == match params.target_type {
            Some(t) => target_filter_of(t@),
            None => None,
        },
        r.direct_only == (params.direct_only == Some(true)),
        r.owner is Some <==> (params.owned_only == Some(true) && current_user is Some),
        r.owner is Some ==> r.owner->0@ == current_user->0@,
{
    let owned_only = match params.owned_only {
        Some(b) => b,
        None => false,
    };
    QrFilter {
        search: copy_term(search_term(&params.search)),
        target: target_of(params),
        direct_only: match params.direct_only {
            Some(b) => b,
            None => false,
        },
        owner: if owned_only {
            copy_term(current_user)
        } else {
            None
        },
    }
}

/// The listing of the QR codes of `user_id`, narrowed by a non-empty search
/// pattern, a valid target type and `direct_only`.
pub fn get_user_qr_codes(user_id: &str, params: &QrSearchParams) -> (r: QrFilter)
    ensures
        opt_string(r.search) == requested_code(params.search),
        r.target == match params.target_type {
            Some(t) => target_filter_of(t@),
            None => None,
        },
        r.direct_only == (params.direct_only == Some(true)),
        r.owner is Some && r.owner->0@ == user_id@,
{
    QrFilter {
        search: copy_term(search_term(&params.search)),
        target: target_of(params),
        direct_only: match params.direct_only {
            Some(b) => b,
            None => false,
        },
        owner: Some(user_id.to_owned()),
    }
}

} // verus!
