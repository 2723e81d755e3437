use vstd::prelude::*;

use crate::clock::MAX_TIMESTAMP_MILLIS;
use crate::res_owner::opt_view;
use crate::text::same_text;
use crate::url::{
    expired_at, generate_short_code, is_url_safe, url_is_valid, validate_url, ShortenedUrl,
    SHORT_CODE_LEN,
};
use crate::url_request::{requested_code, UrlRequest};
use crate::url_visitor::UrlVisitor;

verus! {

/// Why a shorten request is refused.
#[derive(Debug, Clone, Copy, PartialEq, Eq, Structural)]
pub enum ShortenError {
    /// The URL does not parse.
    InvalidUrl,
    /// The custom code is already used by another link.
    CodeInUse,
}

/// Whether `code` has the shape of a generated short code.
pub open spec fn is_generated_code(code: Seq<char>) -> bool {
    code.len() == SHORT_CODE_LEN && forall|i: int| 0 <= i < code.len() ==> is_url_safe(#[trigger] code[i])
}

/// Whether a shorten request is refused, and why: an invalid URL first, then
/// a custom code that is already in use (`code_taken`).
pub open spec fn shorten_refusal(req: UrlRequest, code_taken: bool) -> Option<ShortenError> {
    if !url_is_valid(req.url@) {
        Some(ShortenError::InvalidUrl)
    } else if requested_code(req.custom_code) is Some && code_taken {
        Some(ShortenError::CodeInUse)
    } else {
        None
    }
}

/// The link a shorten request makes at instant `now` for the caller
/// `user_id`. `code_taken` says whether a link with the requested custom
/// code exists; it is not read when no custom code is requested, in which
/// case a random code is drawn.
pub fn create_short_url(req: UrlRequest, user_id: Option<String>, code_taken: bool, now: i64) -> (r:
    Result<ShortenedUrl, ShortenError>)
    requires
        -MAX_TIMESTAMP_MILLIS <= now <= MAX_TIMESTAMP_MILLIS,
    ensures
        match shorten_refusal(req, code_taken) {
            Some(e) => r == Err::<ShortenedUrl, ShortenError>(e),
            None => r is Ok,
        },
        r is Ok ==> {
            let u = r->Ok_0;
            &&& u.created_as(req.url@, u.short_code@, req.expires_in_days, user_id, now)
            &&& match requested_code(req.custom_code) {
                Some(c) => u.short_code@ == c,
                None => is_generated_code(u.short_code@),
            }
        },
{
    if !validate_url(req.url.as_str()) {
        return Err(ShortenError::InvalidUrl);
    }
    let custom = req.custom();
    let code = match custom {
        Some(c) => {
            if code_taken {
                return Err(ShortenError::CodeInUse);
            }
            c.to_owned()
        },
        None => generate_short_code(),
    };
    Ok(ShortenedUrl::new_at(req.url, code, req.expires_in_days, user_id, now))
}

/// What a visit of a short link leads to.
pub enum Redirect {
    /// No link has the code.
    NotFound,
    /// The link has expired.
    Gone,
    /// Send the visitor to this URL.
    Found(String),
}

/// What a visit at instant `now` leads to, for the link found under the code.
pub fn redirect_to_url(url: Option<&ShortenedUrl>, now: i64) -> (r: Redirect)
    ensures
        match url {
            None => r is NotFound,
            Some(u) => if expired_at(u.expires_at, now) {
                r is Gone
            } else {
                r is Found && r->Found_0 == u.original_url
            },
        },
{
    match url {
        None => Redirect::NotFound,
        Some(u) => if u.is_expired_at(now) {
            Redirect::Gone
        } else {
            Redirect::Found(u.original_url.clone())
        },
    }
}

/// The click count after one more redirect; it stops at the largest count.
pub fn next_click_count(clicks: i64) -> (r: i64)
    ensures
        r == crate::store::bumped(clicks),
{
    match clicks.checked_add(1) {
        Some(c) => c,
        None => clicks,
    }
}

/// The visitor row a live visit at instant `now` adds: none when the
/// visitor hash is already recorded for the code (`already_seen`).
pub fn new_visitor(
    already_seen: bool,
    short_code: String,
    visitor_hash: String,
    user_agent: Option<String>,
    referrer: Option<String>,
    now: i64,
) -> (r: Option<UrlVisitor>)
    ensures
        already_seen ==> r is None,
        !already_seen ==> r is Some && r->0.made_as(short_code@, visitor_hash@, user_agent, referrer, now),
{
    if already_seen {
        None
    } else {
        Some(UrlVisitor::new_at(short_code, visitor_hash, user_agent, referrer, now))
    }
}

/// Why a delete request is refused.
#[derive(Debug, Clone, Copy, PartialEq, Eq, Structural)]
pub enum DeleteError {
    /// The request carries no verified claims.
    NotAuthenticated,
    /// No link has the code.
    NotFound,
    /// The caller did not create the link.
    Forbidden,
}

/// Whether the caller may delete the link found under the code, and why not.
pub open spec fn delete_refusal(url: Option<ShortenedUrl>, caller: Option<Seq<char>>) -> Option<DeleteError> {
    match caller {
        None => Some(DeleteError::NotAuthenticated),
        Some(c) => match url {
            None => Some(DeleteError::NotFound),
            Some(u) => if u.user_id is Some && u.user_id->0@ == c {
                None
            } else {
                Some(DeleteError::Forbidden)
            },
        },
    }
}

/// The authorization of a delete request: only the link's creator may delete it.
pub fn delete_short_url(url: Option<&ShortenedUrl>, caller: Option<&str>) -> (r: Result<(), DeleteError>)
    ensures
        r == match delete_refusal(
            match url {
                Some(u) => Some(*u),
                None => None,
            },
            opt_view(caller),
        ) {
            Some(e) => Err::<(), DeleteError>(e),
            None => Ok(()),
        },
{
    match caller {
        None => Err(DeleteError::NotAuthenticated),
        Some(c) => match url {
            None => Err(DeleteError::NotFound),
            Some(u) => match &u.user_id {
                Some(owner) => if same_text(owner.as_str(), c) {
                    Ok(())
                } else {
                    Err(DeleteError::Forbidden)
                },
                None => Err(DeleteError::Forbidden),
            },
        },
    }
}

} // verus!
