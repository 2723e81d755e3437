use vstd::prelude::*;

use crate::clock::MAX_TIMESTAMP_MILLIS;
use crate::qr_code::{direct_prefix, qr_svg, target_name, QrCode, TargetType, DEFAULT_QR_SIZE};
use crate::qr_handlers::{self, target_text, QrOutcome};
use crate::res_owner::opt_view;
use crate::text::same_text;
use crate::url::{expired_at, url_is_valid, ShortenedUrl};
use crate::url_handlers::{self, delete_refusal, is_generated_code, DeleteError, Redirect, ShortenError};
use crate::listing::{qr_check, qr_selected, url_selected, QrFilter, UrlFilter};
use crate::qr_request::QrCodeResponse;
use crate::text::is_prefix;
use crate::url_request::{owned_by, requested_code, UrlAnalyticsResponse, UrlListResponse, UrlRequest};
use crate::url_visitor::UrlVisitor;

verus! {

/// The three collections of the service held in memory: links, cached QR
/// codes and distinct visitors.
pub struct MemoryStore {
    pub urls: Vec<ShortenedUrl>,
    pub qr_codes: Vec<QrCode>,
    pub visitors: Vec<UrlVisitor>,
}

/// Whether some link has short code `code`.
pub open spec fn has_url(urls: Seq<ShortenedUrl>, code: Seq<char>) -> bool {
    exists|i: int| 0 <= i < urls.len() && (#[trigger] urls[i]).short_code@ == code
}

/// Whether a QR code is cached for (`code`, `target`).
pub open spec fn has_qr(qrs: Seq<QrCode>, code: Seq<char>, target: TargetType) -> bool {
    exists|i: int|
        0 <= i < qrs.len() && (#[trigger] qrs[i]).short_code@ == code && qrs[i].target_type == target
}

/// Whether the visitor hash `hash` is recorded for `code`.
pub open spec fn has_visitor(vs: Seq<UrlVisitor>, code: Seq<char>, hash: Seq<char>) -> bool {
    exists|i: int|
        0 <= i < vs.len() && (#[trigger] vs[i]).short_code@ == code && vs[i].visitor_hash@ == hash
}

/// The link stored under `code`, if any.
pub open spec fn url_lookup(urls: Seq<ShortenedUrl>, code: Seq<char>) -> Option<ShortenedUrl> {
    if has_url(urls, code) {
        Some(urls[choose|i: int| 0 <= i < urls.len() && (#[trigger] urls[i]).short_code@ == code])
    } else {
        None
    }
}

/// Whether a visitor row belongs to `code`.
pub open spec fn visitor_of(code: Seq<char>) -> spec_fn(UrlVisitor) -> bool {
    |v: UrlVisitor| v.short_code@ == code
}

/// The number of distinct visitors recorded for `code`.
pub open spec fn visitor_count(vs: Seq<UrlVisitor>, code: Seq<char>) -> nat {
    vs.filter(visitor_of(code)).len()
}

/// Filtering a prefix one element longer adds that element when it passes.
proof fn lemma_filter_step<A>(s: Seq<A>, i: int, pred: spec_fn(A) -> bool)
    requires
        0 <= i < s.len(),
    ensures
        s.subrange(0, i + 1).filter(pred) == if pred(s[i]) {
            s.subrange(0, i).filter(pred).push(s[i])
        } else {
            s.subrange(0, i).filter(pred)
        },
{
    reveal(Seq::filter);
    assert(s.subrange(0, i + 1).drop_last() =~= s.subrange(0, i));
}

/// When the QR code cached for (`code`, `target`) was rendered, if any.
pub open spec fn qr_generated_at(qrs: Seq<QrCode>, code: Seq<char>, target: TargetType) -> Option<i64> {
    if has_qr(qrs, code, target) {
        Some(
            qrs[choose|k: int|
                0 <= k < qrs.len() && (#[trigger] qrs[k]).short_code@ == code && qrs[k].target_type
                    == target].generated_at,
        )
    } else {
        None
    }
}

/// Whether `row` is the listing row of `u` in the store `s`, as seen by the
/// caller `current`.
pub open spec fn lists(row: UrlListResponse, u: ShortenedUrl, s: MemoryStore, current: Option<Seq<char>>) -> bool {
    &&& row.id == u.id
    &&& row.original_url == u.original_url
    &&& row.short_code == u.short_code
    &&& row.created_at == u.created_at
    &&& row.expires_at == u.expires_at
    &&& row.clicks == u.clicks
    &&& row.user_id == u.user_id
    &&& row.unique_clicks == visitor_count(s.visitors@, u.short_code@)
    &&& row.has_shortened_qr == has_qr(s.qr_codes@, u.short_code@, TargetType::Shortened)
    &&& row.has_original_qr == has_qr(s.qr_codes@, u.short_code@, TargetType::Original)
    &&& row.owned_by_current_user == owned_by(current, u.user_id)
}

/// The links a listing selects, in store order.
pub open spec fn selected_urls(urls: Seq<ShortenedUrl>, f: UrlFilter) -> Seq<ShortenedUrl> {
    urls.filter(|u: ShortenedUrl| url_selected(f, u))
}

/// The QR codes a listing selects, in store order.
pub open spec fn selected_qr_codes(qrs: Seq<QrCode>, f: QrFilter) -> Seq<QrCode> {
    qrs.filter(|q: QrCode| qr_selected(f, q))
}

/// Whether `row` is the listing entry of `q` as seen by the caller `current`.
pub open spec fn lists_qr(row: QrCodeResponse, q: QrCode, current: Option<Seq<char>>) -> bool {
    &&& row.id@ == match q.id {
        Some(i) => i@,
        None => Seq::<char>::empty(),
    }
    &&& row.short_code == q.short_code
    &&& row.original_url == q.original_url
    &&& row.generated_at == q.generated_at
    &&& row.target_type@ == target_name(q.target_type)
    &&& row.is_direct == is_prefix(direct_prefix(), q.short_code@)
    &&& row.owned_by_current_user == owned_by(current, q.user_id)
    &&& row.user_id == q.user_id
    &&& row.svg_content == q.svg_content
}

/// In a well-formed store, the link at `i` is the only one with its code.
proof fn lemma_code_unique(s: MemoryStore, i: int)
    requires
        s.wf(),
        0 <= i < s.urls@.len(),
    ensures
        forall|j: int|
            0 <= j < s.urls@.len() && (#[trigger] s.urls@[j]).short_code@ == s.urls@[i].short_code@
                ==> j == i,
{
    assert forall|j: int|
        0 <= j < s.urls@.len() && (#[trigger] s.urls@[j]).short_code@ == s.urls@[i].short_code@ implies j
        == i by {
        if j < i {
            assert(s.urls@[j].short_code@ != s.urls@[i].short_code@);
        } else if j > i {
            assert(s.urls@[i].short_code@ != s.urls@[j].short_code@);
        }
    }
}

/// In a well-formed store, the QR code at `k` is the only one cached under
/// its code and target type.
proof fn lemma_qr_key_unique(s: MemoryStore, k: int)
    requires
        s.wf(),
        0 <= k < s.qr_codes@.len(),
    ensures
        forall|j: int|
            0 <= j < s.qr_codes@.len() && (#[trigger] s.qr_codes@[j]).short_code@ == s.qr_codes@[k].short_code@
                && s.qr_codes@[j].target_type == s.qr_codes@[k].target_type ==> j == k,
{
    assert forall|j: int|
        0 <= j < s.qr_codes@.len() && (#[trigger] s.qr_codes@[j]).short_code@ == s.qr_codes@[k].short_code@
            && s.qr_codes@[j].target_type == s.qr_codes@[k].target_type implies j == k by {
        if j < k {
            assert(!(s.qr_codes@[j].short_code@ == s.qr_codes@[k].short_code@ && s.qr_codes@[j].target_type
                == s.qr_codes@[k].target_type));
        } else if j > k {
            assert(!(s.qr_codes@[k].short_code@ == s.qr_codes@[j].short_code@ && s.qr_codes@[k].target_type
                == s.qr_codes@[j].target_type));
        }
    }
}

/// A click count after one more redirect; it stops at the largest count.
pub open spec fn bumped(clicks: i64) -> i64 {
    if clicks < i64::MAX {
        (clicks + 1) as i64
    } else {
        clicks
    }
}

/// A link after one more redirect.
pub open spec fn clicked(u: ShortenedUrl) -> ShortenedUrl {
    ShortenedUrl { clicks: bumped(u.clicks), ..u }
}

/// A cached QR code after it was rendered anew at `now`.
pub open spec fn refreshed(q: QrCode, svg: String, now: i64) -> QrCode {
    QrCode { svg_content: svg, generated_at: now, ..q }
}

/// What creating a link does to the store (`old` to `new`) and answers (`r`).
pub open spec fn create_post(
    old: MemoryStore,
    new: MemoryStore,
    req: UrlRequest,
    user_id: Option<String>,
    now: i64,
    r: Result<(), ShortenError>,
) -> bool {
    &&& new.wf()
    &&& !url_is_valid(req.url@) ==> r == Err::<(), ShortenError>(ShortenError::InvalidUrl)
    &&& url_is_valid(req.url@) ==> match requested_code(req.custom_code) {
        Some(c) => if has_url(old.urls@, c) {
            r == Err::<(), ShortenError>(ShortenError::CodeInUse)
        } else {
            r is Ok
        },
        None => r is Ok || (r == Err::<(), ShortenError>(ShortenError::CodeInUse) && exists|c: Seq<char>|
            is_generated_code(c) && #[trigger] has_url(old.urls@, c)),
    }
    &&& r is Err ==> new == old
    &&& r is Ok ==> {
        &&& new.urls@.len() == old.urls@.len() + 1
        &&& new.urls@.drop_last() == old.urls@
        &&& new.urls@.last().created_as(
            req.url@,
            new.urls@.last().short_code@,
            req.expires_in_days,
            user_id,
            now,
        )
        &&& !has_url(old.urls@, new.urls@.last().short_code@)
        &&& match requested_code(req.custom_code) {
            Some(c) => new.urls@.last().short_code@ == c,
            None => is_generated_code(new.urls@.last().short_code@),
        }
        &&& new.qr_codes == old.qr_codes
        &&& new.visitors == old.visitors
    }
}

/// What a visit of `code` by the visitor hash `hash` at instant `now` does to
/// the store (`old` to `new`) and answers (`r`): a live link counts the click
/// and records the visitor the first time only.
pub open spec fn redirect_post(
    old: MemoryStore,
    new: MemoryStore,
    code: Seq<char>,
    hash: Seq<char>,
    user_agent: Option<String>,
    referrer: Option<String>,
    now: i64,
    r: Redirect,
) -> bool {
    &&& new.wf()
    &&& !has_url(old.urls@, code) ==> r is NotFound && new == old
    &&& forall|i: int|
        0 <= i < old.urls@.len() && (#[trigger] old.urls@[i]).short_code@ == code ==> {
            if expired_at(old.urls@[i].expires_at, now) {
                r is Gone && new == old
            } else {
                &&& r is Found
                &&& r->Found_0 == old.urls@[i].original_url
                &&& new.urls@ == old.urls@.update(i, clicked(old.urls@[i]))
                &&& new.qr_codes == old.qr_codes
                &&& has_visitor(old.visitors@, code, hash) ==> new.visitors == old.visitors
                &&& !has_visitor(old.visitors@, code, hash) ==> {
                    &&& new.visitors@.drop_last() == old.visitors@
                    &&& new.visitors@.len() == old.visitors@.len() + 1
                    &&& new.visitors@.last().made_as(code, hash, user_agent, referrer, now)
                }
            }
        }
}

/// What a request for the QR code of (`code`, `target`) at instant `now` does
/// to the store (`old` to `new`) and answers (`r`): a cached image is
/// returned as it is unless `force`; a new one replaces the cached entry, or
/// is added when none is cached.
pub open spec fn regenerate_post(
    old: MemoryStore,
    new: MemoryStore,
    code: Seq<char>,
    target: TargetType,
    force: bool,
    host: Seq<char>,
    now: i64,
    r: QrOutcome,
) -> bool {
    &&& new.wf()
    &&& !has_url(old.urls@, code) ==> r is UrlNotFound && new == old
    &&& forall|i: int|
        0 <= i < old.urls@.len() && (#[trigger] old.urls@[i]).short_code@ == code ==> {
            let u = old.urls@[i];
            if expired_at(u.expires_at, now) {
                r is Expired && new == old
            } else if !force && has_qr(old.qr_codes@, code, target) {
                &&& new == old
                &&& forall|k: int|
                    0 <= k < old.qr_codes@.len() && (#[trigger] old.qr_codes@[k]).short_code@ == code
                        && old.qr_codes@[k].target_type == target ==> r is Cached && r->Cached_0
                        == old.qr_codes@[k].svg_content
            } else {
                match qr_svg(target_text(u, target, host), DEFAULT_QR_SIZE) {
                    None => r is RenderFailed && new == old,
                    Some(svg) => {
                        &&& r is Rendered
                        &&& r->Rendered_0@ == svg
                        &&& new.urls == old.urls
                        &&& new.visitors == old.visitors
                        &&& forall|k: int|
                            0 <= k < old.qr_codes@.len() && (#[trigger] old.qr_codes@[k]).short_code@
                                == code && old.qr_codes@[k].target_type == target ==> new.qr_codes@
                                == old.qr_codes@.update(k, refreshed(old.qr_codes@[k], r->Rendered_0, now))
                        &&& !has_qr(old.qr_codes@, code, target) ==> {
                            &&& new.qr_codes@.drop_last() == old.qr_codes@
                            &&& new.qr_codes@.len() == old.qr_codes@.len() + 1
                            &&& new.qr_codes@.last().made_as(code, u.original_url@, svg, target, u.user_id, now)
                        }
                    },
                }
            }
        }
}

/// What a delete of `code` by the caller `caller` does to the store (`old` to
/// `new`) and answers (`r`): only the link's creator may delete it; then the
/// link, its cached QR codes and its visitor rows all go, and nothing else.
pub open spec fn delete_post(
    old: MemoryStore,
    new: MemoryStore,
    code: Seq<char>,
    caller: Option<Seq<char>>,
    r: Result<(), DeleteError>,
) -> bool {
    &&& new.wf()
    &&& r == match delete_refusal(url_lookup(old.urls@, code), caller) {
        Some(e) => Err::<(), DeleteError>(e),
        None => Ok(()),
    }
    &&& r is Err ==> new == old
    &&& r is Ok ==> {
        &&& !has_url(new.urls@, code)
        &&& forall|i: int|
            0 <= i < old.urls@.len() && (#[trigger] old.urls@[i]).short_code@ == code ==> new.urls@
                == old.urls@.remove(i)
        &&& forall|k: int| 0 <= k < new.qr_codes@.len() ==> (#[trigger] new.qr_codes@[k]).short_code@ != code
        &&& forall|k: int|
            0 <= k < old.qr_codes@.len() && (#[trigger] old.qr_codes@[k]).short_code@ != code
                ==> new.qr_codes@.contains(old.qr_codes@[k])
        &&& forall|q: QrCode| #[trigger] new.qr_codes@.contains(q) ==> old.qr_codes@.contains(q)
        &&& forall|k: int| 0 <= k < new.visitors@.len() ==> (#[trigger] new.visitors@[k]).short_code@ != code
        &&& forall|k: int|
            0 <= k < old.visitors@.len() && (#[trigger] old.visitors@[k]).short_code@ != code
                ==> new.visitors@.contains(old.visitors@[k])
        &&& forall|v: UrlVisitor| #[trigger] new.visitors@.contains(v) ==> old.visitors@.contains(v)
    }
}

/// The cached QR codes of `qrs` that do not belong to `code`, each once.
fn qr_codes_without(qrs: Vec<QrCode>, code: &str) -> (r: Vec<QrCode>)
    requires
        forall|i: int, j: int|
            0 <= i < j < qrs@.len() ==> !((#[trigger] qrs@[i]).short_code@ == (#[trigger] qrs@[j]).short_code@
                && qrs@[i].target_type == qrs@[j].target_type),
    ensures
        forall|i: int, j: int|
            0 <= i < j < r@.len() ==> !((#[trigger] r@[i]).short_code@ == (#[trigger] r@[j]).short_code@
                && r@[i].target_type == r@[j].target_type),
        forall|k: int| 0 <= k < r@.len() ==> (#[trigger] r@[k]).short_code@ != code@,
        forall|k: int|
            0 <= k < qrs@.len() && (#[trigger] qrs@[k]).short_code@ != code@ ==> r@.contains(qrs@[k]),
        forall|q: QrCode| #[trigger] r@.contains(q) ==> qrs@.contains(q),
{
    let ghost orig = qrs@;
    let mut rest = qrs;
    let mut kept: Vec<QrCode> = Vec::new();
    while rest.len() > 0
        invariant
            rest@ == orig.subrange(0, rest@.len() as int),
            rest@.len() <= orig.len(),
            forall|i: int, j: int|
                0 <= i < j < orig.len() ==> !((#[trigger] orig[i]).short_code@ == (#[trigger] orig[j]).short_code@
                    && orig[i].target_type == orig[j].target_type),
            forall|k: int|
                0 <= k < kept@.len() ==> exists|j: int|
                    rest@.len() <= j < orig.len() && #[trigger] kept@[k] == orig[j],
            forall|k: int| 0 <= k < kept@.len() ==> (#[trigger] kept@[k]).short_code@ != code@,
            forall|i: int, j: int|
                0 <= i < j < kept@.len() ==> !((#[trigger] kept@[i]).short_code@ == (#[trigger] kept@[j]).short_code@
                    && kept@[i].target_type == kept@[j].target_type),
            forall|j: int|
                rest@.len() <= j < orig.len() && (#[trigger] orig[j]).short_code@ != code@ ==> kept@.contains(orig[j]),
        decreases rest@.len(),
    {
        let q = rest.pop().unwrap();
        let ghost n = rest@.len() as int;
        assert(q == orig[n]);
        assert(rest@ =~= orig.subrange(0, n));
        if !same_text(q.short_code.as_str(), code) {
            let ghost before = kept@;
            proof {
                assert forall|k: int| 0 <= k < before.len() implies !((#[trigger] before[k]).short_code@
                    == q.short_code@ && before[k].target_type == q.target_type) by {
                    let j = choose|j: int| n + 1 <= j < orig.len() && before[k] == orig[j];
                    assert(!(orig[n].short_code@ == orig[j].short_code@ && orig[n].target_type
                        == orig[j].target_type));
                }
            }
            kept.push(q);
            proof {
                assert forall|k: int| 0 <= k < kept@.len() implies exists|j: int|
                    n <= j < orig.len() && #[trigger] kept@[k] == orig[j] by {
                    if k < before.len() {
                        let j = choose|j: int| n + 1 <= j < orig.len() && before[k] == orig[j];
                        assert(kept@[k] == orig[j]);
                    } else {
                        assert(kept@[k] == orig[n]);
                    }
                }
                assert forall|j: int|
                    n <= j < orig.len() && (#[trigger] orig[j]).short_code@ != code@ implies kept@.contains(
                    orig[j]) by {
                    if j == n {
                        assert(kept@[before.len() as int] == orig[j]);
                    } else {
                        let k = choose|k: int| 0 <= k < before.len() && before[k] == orig[j];
                        assert(kept@[k] == orig[j]);
                    }
                }
            }
        }
    }
    proof {
        assert forall|q: QrCode| #[trigger] kept@.contains(q) implies orig.contains(q) by {
            let k = choose|k: int| 0 <= k < kept@.len() && kept@[k] == q;
            let j = choose|j: int| rest@.len() <= j < orig.len() && kept@[k] == orig[j];
        }
    }
    kept
}

/// The visitor rows of `vs` that do not belong to `code`, each once.
fn visitors_without(vs: Vec<UrlVisitor>, code: &str) -> (r: Vec<UrlVisitor>)
    requires
        forall|i: int, j: int|
            0 <= i < j < vs@.len() ==> !((#[trigger] vs@[i]).short_code@ == (#[trigger] vs@[j]).short_code@
                && vs@[i].visitor_hash@ == vs@[j].visitor_hash@),
    ensures
        forall|i: int, j: int|
            0 <= i < j < r@.len() ==> !((#[trigger] r@[i]).short_code@ == (#[trigger] r@[j]).short_code@
                && r@[i].visitor_hash@ == r@[j].visitor_hash@),
        forall|k: int| 0 <= k < r@.len() ==> (#[trigger] r@[k]).short_code@ != code@,
        forall|k: int|
            0 <= k < vs@.len() && (#[trigger] vs@[k]).short_code@ != code@ ==> r@.contains(vs@[k]),
        forall|v: UrlVisitor| #[trigger] r@.contains(v) ==> vs@.contains(v),
{
    let ghost orig = vs@;
    let mut rest = vs;
    let mut kept: Vec<UrlVisitor> = Vec::new();
    while rest.len() > 0
        invariant
            rest@ == orig.subrange(0, rest@.len() as int),
            rest@.len() <= orig.len(),
            forall|i: int, j: int|
                0 <= i < j < orig.len() ==> !((#[trigger] orig[i]).short_code@ == (#[trigger] orig[j]).short_code@
                    && orig[i].visitor_hash@ == orig[j].visitor_hash@),
            forall|k: int|
                0 <= k < kept@.len() ==> exists|j: int|
                    rest@.len() <= j < orig.len() && #[trigger] kept@[k] == orig[j],
            forall|k: int| 0 <= k < kept@.len() ==> (#[trigger] kept@[k]).short_code@ != code@,
            forall|i: int, j: int|
                0 <= i < j < kept@.len() ==> !((#[trigger] kept@[i]).short_code@ == (#[trigger] kept@[j]).short_code@
                    && kept@[i].visitor_hash@ == kept@[j].visitor_hash@),
            forall|j: int|
                rest@.len() <= j < orig.len() && (#[trigger] orig[j]).short_code@ != code@ ==> kept@.contains(orig[j]),
        decreases rest@.len(),
    {
        let v = rest.pop().unwrap();
        let ghost n = rest@.len() as int;
        assert(v == orig[n]);
        assert(rest@ =~= orig.subrange(0, n));
        if !same_text(v.short_code.as_str(), code) {
            let ghost before = kept@;
            proof {
                assert forall|k: int| 0 <= k < before.len() implies !((#[trigger] before[k]).short_code@
                    == v.short_code@ && before[k].visitor_hash@ == v.visitor_hash@) by {
                    let j = choose|j: int| n + 1 <= j < orig.len() && before[k] == orig[j];
                    assert(!(orig[n].short_code@ == orig[j].short_code@ && orig[n].visitor_hash@
                        == orig[j].visitor_hash@));
                }
            }
            kept.push(v);
            proof {
                assert forall|k: int| 0 <= k < kept@.len() implies exists|j: int|
                    n <= j < orig.len() && #[trigger] kept@[k] == orig[j] by {
                    if k < before.len() {
                        let j = choose|j: int| n + 1 <= j < orig.len() && before[k] == orig[j];
                        assert(kept@[k] == orig[j]);
                    } else {
                        assert(kept@[k] == orig[n]);
                    }
                }
                assert forall|j: int|
                    n <= j < orig.len() && (#[trigger] orig[j]).short_code@ != code@ implies kept@.contains(
                    orig[j]) by {
                    if j == n {
                        assert(kept@[before.len() as int] == orig[j]);
                    } else {
                        let k = choose|k: int| 0 <= k < before.len() && before[k] == orig[j];
                        assert(kept@[k] == orig[j]);
                    }
                }
            }
        }
    }
    proof {
        assert forall|v: UrlVisitor| #[trigger] kept@.contains(v) implies orig.contains(v) by {
            let k = choose|k: int| 0 <= k < kept@.len() && kept@[k] == v;
            let j = choose|j: int| rest@.len() <= j < orig.len() && kept@[k] == orig[j];
        }
    }
    kept
}

impl MemoryStore {
    /// The store's invariants: short codes are unique, at most one QR code is
    /// cached per (short code, target type), one visitor row is kept per
    /// (short code, visitor hash), and click counts are never negative.
    pub open spec fn wf(&self) -> bool {
        &&& forall|i: int, j: int|
            0 <= i < j < self.urls@.len() ==> (#[trigger] self.urls@[i]).short_code@
                != (#[trigger] self.urls@[j]).short_code@
        &&& forall|i: int, j: int|
            0 <= i < j < self.qr_codes@.len() ==> !((#[trigger] self.qr_codes@[i]).short_code@
                == (#[trigger] self.qr_codes@[j]).short_code@ && self.qr_codes@[i].target_type
                == self.qr_codes@[j].target_type)
        &&& forall|i: int, j: int|
            0 <= i < j < self.visitors@.len() ==> !((#[trigger] self.visitors@[i]).short_code@
                == (#[trigger] self.visitors@[j]).short_code@ && self.visitors@[i].visitor_hash@
                == self.visitors@[j].visitor_hash@)
        &&& forall|i: int| 0 <= i < self.urls@.len() ==> (#[trigger] self.urls@[i]).clicks >= 0
    }

    /// An empty store.
    pub fn new() -> (r: MemoryStore)
        ensures
            r.wf(),
            r.urls@.len() == 0,
            r.qr_codes@.len() == 0,
            r.visitors@.len() == 0,
    {
        MemoryStore { urls: Vec::new(), qr_codes: Vec::new(), visitors: Vec::new() }
    }

    /// The position of the link with short code `code`.
    pub fn find_url(&self, code: &str) -> (r: Option<usize>)
        ensures
            match r {
                Some(i) => i < self.urls@.len() && self.urls@[i as int].short_code@ == code@,
                None => !has_url(self.urls@, code@),
            },
    {
        let mut i: usize = 0;
        while i < self.urls.len()
            invariant
                i <= self.urls@.len(),
                forall|j: int| 0 <= j < i ==> (#[trigger] self.urls@[j]).short_code@ != code@,
            decreases self.urls@.len() - i,
        {
            if same_text(self.urls[i].short_code.as_str(), code) {
                return Some(i);
            }
            i = i + 1;
        }
        None
    }

    /// The position of the QR code cached for (`code`, `target`).
    pub fn find_qr(&self, code: &str, target: TargetType) -> (r: Option<usize>)
        ensures
            match r {
                Some(i) => i < self.qr_codes@.len() && self.qr_codes@[i as int].short_code@ == code@
                    && self.qr_codes@[i as int].target_type == target,
                None => !has_qr(self.qr_codes@, code@, target),
            },
    {
        let mut i: usize = 0;
        while i < self.qr_codes.len()
            invariant
                i <= self.qr_codes@.len(),
                forall|j: int|
                    0 <= j < i ==> !((#[trigger] self.qr_codes@[j]).short_code@ == code@
                        && self.qr_codes@[j].target_type == target),
            decreases self.qr_codes@.len() - i,
        {
            if self.qr_codes[i].target_type == target && same_text(
                self.qr_codes[i].short_code.as_str(),
                code,
            ) {
                return Some(i);
            }
            i = i + 1;
        }
        None
    }

    /// Whether the visitor hash `hash` is recorded for `code`.
    pub fn knows_visitor(&self, code: &str, hash: &str) -> (r: bool)
        ensures
            r == has_visitor(self.visitors@, code@, hash@),
    {
        let mut i: usize = 0;
        while i < self.visitors.len()
            invariant
                i <= self.visitors@.len(),
                forall|j: int|
                    0 <= j < i ==> !((#[trigger] self.visitors@[j]).short_code@ == code@
                        && self.visitors@[j].visitor_hash@ == hash@),
            decreases self.visitors@.len() - i,
        {
            if same_text(self.visitors[i].short_code.as_str(), code) && same_text(
                self.visitors[i].visitor_hash.as_str(),
                hash,
            ) {
                return true;
            }
            i = i + 1;
        }
        false
    }

    /// Stores a new short link asked for at instant `now` by `user_id`. A
    /// custom code already in use is refused; a drawn code that happens to be
    /// in use is refused the same way, so codes stay unique.
    pub fn create_short_url(&mut self, req: UrlRequest, user_id: Option<String>, now: i64) -> (r:
        Result<(), ShortenError>)
        requires
            old(self).wf(),
            old(self).urls@.len() < usize::MAX,
            -MAX_TIMESTAMP_MILLIS <= now <= MAX_TIMESTAMP_MILLIS,
        ensures
            create_post(*old(self), *final(self), req, user_id, now, r),
    {
        let taken = match req.custom() {
            Some(c) => self.find_url(c).is_some(),
            None => false,
        };
        match url_handlers::create_short_url(req, user_id, taken, now) {
            Err(e) => Err(e),
            Ok(u) => {
                if let Some(k) = self.find_url(u.short_code.as_str()) {
                    assert(has_url(self.urls@, u.short_code@)) by {
                        assert(self.urls@[k as int].short_code@ == u.short_code@);
                    }
                    return Err(ShortenError::CodeInUse);
                }
                self.urls.push(u);
                assert(self.urls@.drop_last() =~= old(self).urls@);
                Ok(())
            },
        }
    }

    /// Serves a visit of `code` at instant `now` by the visitor with hash
    /// `visitor_hash`. A live link has its click count raised by one and the
    /// visitor recorded unless already known.
    pub fn redirect_to_url(
        &mut self,
        code: &str,
        visitor_hash: String,
        user_agent: Option<String>,
        referrer: Option<String>,
        now: i64,
    ) -> (r: Redirect)
        requires
            old(self).wf(),
            old(self).visitors@.len() < usize::MAX,
        ensures
            redirect_post(*old(self), *final(self), code@, visitor_hash@, user_agent, referrer, now, r),
    {
        let i = match self.find_url(code) {
            Some(i) => i,
            None => {
                return Redirect::NotFound;
            },
        };
        proof {
            lemma_code_unique(*self, i as int);
        }
        let r = url_handlers::redirect_to_url(Some(&self.urls[i]), now);
        match r {
            Redirect::Found(_) => {},
            _ => {
                return r;
            },
        }
        let clicks = url_handlers::next_click_count(self.urls[i].clicks);
        self.urls[i].clicks = clicks;
        assert(self.urls@ =~= old(self).urls@.update(i as int, clicked(old(self).urls@[i as int])));
        let seen = self.knows_visitor(code, visitor_hash.as_str());
        if let Some(v) = url_handlers::new_visitor(seen, code.to_owned(), visitor_hash, user_agent, referrer, now) {
            self.visitors.push(v);
            assert(self.visitors@.drop_last() =~= old(self).visitors@);
        }
        r
    }

    /// Serves a request for the QR code of (`code`, `target`) at instant `now`:
    /// the cached image unless `force`, else a new image at the default size,
    /// which then replaces (or becomes) the cached entry, stamped with `now`.
    pub fn regenerate_qr(&mut self, code: &str, target: TargetType, force: bool, host: &str, now: i64) -> (r:
        QrOutcome)
        requires
            old(self).wf(),
            old(self).qr_codes@.len() < usize::MAX,
        ensures
            regenerate_post(*old(self), *final(self), code@, target, force, host@, now, r),
    {
        let i = match self.find_url(code) {
            Some(i) => i,
            None => {
                return QrOutcome::UrlNotFound;
            },
        };
        proof {
            lemma_code_unique(*self, i as int);
        }
        let cached = self.find_qr(code, target);
        proof {
            if let Some(k) = cached {
                lemma_qr_key_unique(*self, k as int);
            }
        }
        let r = match cached {
            Some(k) => qr_handlers::regenerate_qr(Some(&self.urls[i]), Some(&self.qr_codes[k]), target, force, host, now),
            None => qr_handlers::regenerate_qr(Some(&self.urls[i]), None, target, force, host, now),
        };
        let svg = match &r {
            QrOutcome::Rendered(svg) => svg.clone(),
            _ => {
                return r;
            },
        };
        match cached {
            Some(k) => {
                self.qr_codes[k].svg_content = svg;
                self.qr_codes[k].generated_at = now;
                assert(self.qr_codes@ =~= old(self).qr_codes@.update(
                    k as int,
                    refreshed(old(self).qr_codes@[k as int], r->Rendered_0, now),
                ));
            },
            None => {
                let q = QrCode::new_at(
                    code.to_owned(),
                    self.urls[i].original_url.clone(),
                    svg,
                    target,
                    self.urls[i].user_id.clone(),
                    now,
                );
                self.qr_codes.push(q);
                assert(self.qr_codes@.drop_last() =~= old(self).qr_codes@);
            },
        }
        r
    }

    /// Deletes the link `code` on behalf of `caller` (`None`: no verified
    /// claims), with its cached QR codes and visitor rows. Only the link's
    /// creator may delete it; a refused request changes nothing.
    pub fn delete_short_url(&mut self, code: &str, caller: Option<&str>) -> (r: Result<(), DeleteError>)
        requires
            old(self).wf(),
        ensures
            delete_post(*old(self), *final(self), code@, opt_view(caller), r),
    {
        let found = self.find_url(code);
        proof {
            if let Some(i) = found {
                lemma_code_unique(*self, i as int);
                assert(has_url(self.urls@, code@));
                assert(url_lookup(self.urls@, code@) == Some(self.urls@[i as int]));
            }
        }
        let decision = match found {
            Some(i) => url_handlers::delete_short_url(Some(&self.urls[i]), caller),
            None => url_handlers::delete_short_url(None, caller),
        };
        let i = match decision {
            Err(e) => {
                return Err(e);
            },
            Ok(()) => match found {
                Some(i) => i,
                None => {
                    return Err(DeleteError::NotFound);
                },
            },
        };
        let _ = self.urls.remove(i);
        proof {
            assert forall|a: int, b: int| 0 <= a < b < self.urls@.len() implies (#[trigger] self.urls@[a]).short_code@
                != (#[trigger] self.urls@[b]).short_code@ by {
                let a0 = if a < i { a } else { a + 1 };
                let b0 = if b < i { b } else { b + 1 };
                assert(self.urls@[a] == old(self).urls@[a0]);
                assert(self.urls@[b] == old(self).urls@[b0]);
            }
            assert forall|k: int| 0 <= k < self.urls@.len() implies (#[trigger] self.urls@[k]).short_code@ != code@ by {
                let k0 = if k < i { k } else { k + 1 };
                assert(self.urls@[k] == old(self).urls@[k0]);
                if k < i {
                    assert(old(self).urls@[k0].short_code@ != old(self).urls@[i as int].short_code@);
                } else {
                    assert(old(self).urls@[i as int].short_code@ != old(self).urls@[k0].short_code@);
                }
            }
            assert forall|k: int| 0 <= k < self.urls@.len() implies (#[trigger] self.urls@[k]).clicks >= 0 by {
                let k0 = if k < i { k } else { k + 1 };
                assert(self.urls@[k] == old(self).urls@[k0]);
            }
        }
        let mut qrs: Vec<QrCode> = Vec::new();
        std::mem::swap(&mut qrs, &mut self.qr_codes);
        self.qr_codes = qr_codes_without(qrs, code);
        let mut vs: Vec<UrlVisitor> = Vec::new();
        std::mem::swap(&mut vs, &mut self.visitors);
        self.visitors = visitors_without(vs, code);
        Ok(())
    }

    /// The number of distinct visitors recorded for `code`.
    pub fn count_visitors(&self, code: &str) -> (r: usize)
        ensures
            r == visitor_count(self.visitors@, code@),
    {
        let mut n: usize = 0;
        let mut i: usize = 0;
        while i < self.visitors.len()
            invariant
                i <= self.visitors@.len(),
                n == self.visitors@.subrange(0, i as int).filter(visitor_of(code@)).len(),
                n <= i,
            decreases self.visitors@.len() - i,
        {
            proof {
                lemma_filter_step(self.visitors@, i as int, visitor_of(code@));
            }
            if same_text(self.visitors[i].short_code.as_str(), code) {
                n = n + 1;
            }
            i = i + 1;
        }
        assert(self.visitors@.subrange(0, i as int) =~= self.visitors@);
        n
    }

    /// The QR code cached for (`code`, `target`), if any.
    pub fn cached_qr(&self, code: &str, target: TargetType) -> (r: Option<&QrCode>)
        requires
            self.wf(),
        ensures
            r is Some <==> has_qr(self.qr_codes@, code@, target),
            r is Some ==> r->0.short_code@ == code@ && r->0.target_type == target,
            qr_generated_at(self.qr_codes@, code@, target) == match r {
                Some(q) => Some(q.generated_at),
                None => None,
            },
    {
        match self.find_qr(code, target) {
            Some(k) => {
                proof {
                    lemma_qr_key_unique(*self, k as int);
                }
                Some(&self.qr_codes[k])
            },
            None => None,
        }
    }

    /// The analytics of the link `code`: its clicks, its distinct visitors
    /// and the QR codes cached for it; `None` when no link has the code.
    pub fn get_url_analytics(&self, code: &str) -> (r: Option<UrlAnalyticsResponse>)
        requires
            self.wf(),
        ensures
            r is None <==> !has_url(self.urls@, code@),
            forall|i: int|
                0 <= i < self.urls@.len() && (#[trigger] self.urls@[i]).short_code@ == code@ ==> {
                    let a = r->0;
                    let u = self.urls@[i];
                    &&& r is Some
                    &&& a.short_code == u.short_code
                    &&& a.original_url == u.original_url
                    &&& a.created_at == u.created_at
                    &&& a.expires_at == u.expires_at
                    &&& a.clicks == u.clicks
                    &&& a.user_id == u.user_id
                    &&& a.unique_clicks == visitor_count(self.visitors@, code@)
                    &&& a.has_shortened_qr == has_qr(self.qr_codes@, code@, TargetType::Shortened)
                    &&& a.has_original_qr == has_qr(self.qr_codes@, code@, TargetType::Original)
                    &&& a.shortened_qr_generated_at == qr_generated_at(
                        self.qr_codes@,
                        code@,
                        TargetType::Shortened,
                    )
                    &&& a.original_qr_generated_at == qr_generated_at(
                        self.qr_codes@,
                        code@,
                        TargetType::Original,
                    )
                },
    {
        let i = match self.find_url(code) {
            Some(i) => i,
            None => {
                return None;
            },
        };
        proof {
            lemma_code_unique(*self, i as int);
        }
        let unique = self.count_visitors(code);
        let shortened = self.cached_qr(code, TargetType::Shortened);
        let original = self.cached_qr(code, TargetType::Original);
        let u = self.urls[i].duplicate();
        Some(UrlAnalyticsResponse::from_parts(u, unique, shortened, original))
    }

    /// The listing of the links `filter` selects, in store order, with their
    /// analytics and QR status, as seen by the caller `current_user`.
    pub fn list_urls(&self, filter: &UrlFilter, current_user: Option<&str>) -> (r: Vec<UrlListResponse>)
        requires
            self.wf(),
        ensures
            r@.len() == selected_urls(self.urls@, *filter).len(),
            forall|k: int|
                0 <= k < r@.len() ==> lists(
                    #[trigger] r@[k],
                    selected_urls(self.urls@, *filter)[k],
                    *self,
                    opt_view(current_user),
                ),
    {
        let ghost pred = |u: ShortenedUrl| url_selected(*filter, u);
        let mut rows: Vec<UrlListResponse> = Vec::new();
        let mut i: usize = 0;
        while i < self.urls.len()
            invariant
                self.wf(),
                i <= self.urls@.len(),
                pred == (|u: ShortenedUrl| url_selected(*filter, u)),
                rows@.len() == self.urls@.subrange(0, i as int).filter(pred).len(),
                forall|k: int|
                    0 <= k < rows@.len() ==> lists(
                        #[trigger] rows@[k],
                        self.urls@.subrange(0, i as int).filter(pred)[k],
                        *self,
                        opt_view(current_user),
                    ),
            decreases self.urls@.len() - i,
        {
            proof {
                lemma_filter_step(self.urls@, i as int, pred);
            }
            if filter.selects(&self.urls[i]) {
                let code = self.urls[i].short_code.as_str();
                let unique = self.count_visitors(code);
                let has_shortened = self.find_qr(code, TargetType::Shortened).is_some();
                let has_original = self.find_qr(code, TargetType::Original).is_some();
                let u = self.urls[i].duplicate();
                let row = UrlListResponse::from_parts(u, unique, has_shortened, has_original, current_user);
                let ghost before = rows@;
                rows.push(row);
                proof {
                    assert forall|k: int| 0 <= k < rows@.len() implies lists(
                        #[trigger] rows@[k],
                        self.urls@.subrange(0, i + 1).filter(pred)[k],
                        *self,
                        opt_view(current_user),
                    ) by {
                        if k < before.len() {
                            assert(rows@[k] == before[k]);
                        }
                    }
                }
            }
            i = i + 1;
        }
        assert(self.urls@.subrange(0, i as int) =~= self.urls@);
        rows
    }

    /// The listing of the QR codes `filter` selects, in store order, as seen
    /// by the caller `current_user`; `None` when the search pattern is not a
    /// valid regular expression and some record had to be tested against it.
    pub fn list_qr_codes(&self, filter: &QrFilter, current_user: Option<&str>) -> (r: Option<
        Vec<QrCodeResponse>,
    >)
        ensures
            r is None <==> exists|i: int|
                0 <= i < self.qr_codes@.len() && (#[trigger] qr_check(*filter, self.qr_codes@[i])) is None,
            r is Some ==> r->0@.len() == selected_qr_codes(self.qr_codes@, *filter).len(),
            r is Some ==> forall|k: int|
                0 <= k < r->0@.len() ==> lists_qr(
                    #[trigger] r->0@[k],
                    selected_qr_codes(self.qr_codes@, *filter)[k],
                    opt_view(current_user),
                ),
    {
        let ghost pred = |q: QrCode| qr_selected(*filter, q);
        let mut rows: Vec<QrCodeResponse> = Vec::new();
        let mut i: usize = 0;
        while i < self.qr_codes.len()
            invariant
                i <= self.qr_codes@.len(),
                pred == (|q: QrCode| qr_selected(*filter, q)),
                forall|j: int| 0 <= j < i ==> (#[trigger] qr_check(*filter, self.qr_codes@[j])) is Some,
                rows@.len() == self.qr_codes@.subrange(0, i as int).filter(pred).len(),
                forall|k: int|
                    0 <= k < rows@.len() ==> lists_qr(
                        #[trigger] rows@[k],
                        self.qr_codes@.subrange(0, i as int).filter(pred)[k],
                        opt_view(current_user),
                    ),
            decreases self.qr_codes@.len() - i,
        {
            proof {
                lemma_filter_step(self.qr_codes@, i as int, pred);
            }
            let selected = match filter.selects(&self.qr_codes[i]) {
                Some(b) => b,
                None => {
                    return None;
                },
            };
            if selected {
                let q = self.qr_codes[i].duplicate();
                let row = QrCodeResponse::from_qr(q, current_user);
                let ghost before = rows@;
                rows.push(row);
                proof {
                    assert forall|k: int| 0 <= k < rows@.len() implies lists_qr(
                        #[trigger] rows@[k],
                        self.qr_codes@.subrange(0, i + 1).filter(pred)[k],
                        opt_view(current_user),
                    ) by {
                        if k < before.len() {
                            assert(rows@[k] == before[k]);
                        }
                    }
                }
            }
            i = i + 1;
        }
        assert(self.qr_codes@.subrange(0, i as int) =~= self.qr_codes@);
        Some(rows)
    }
}

} // verus!
