//! Properties of the service that span several requests, proved over the
//! postconditions of the in-memory store's operations.
use vstd::prelude::*;

use crate::qr_code::TargetType;
use crate::store::{
    bumped, clicked, create_post, visitor_count, visitor_of, delete_post, has_qr, has_url, has_visitor, redirect_post, regenerate_post,
    MemoryStore,
};
use crate::qr_handlers::QrOutcome;
use crate::url::{expired_at, expiry_of, url_is_valid};
use crate::url_handlers::{DeleteError, Redirect, ShortenError};
use crate::url_request::{requested_code, UrlRequest};

verus! {

/// A link just created answers a visit with its original URL until its
/// expiry instant has passed, and as gone after that.
pub proof fn redirect_after_create(
    s0: MemoryStore,
    s1: MemoryStore,
    s2: MemoryStore,
    req: UrlRequest,
    user_id: Option<String>,
    created: i64,
    hash: Seq<char>,
    user_agent: Option<String>,
    referrer: Option<String>,
    now: i64,
    r: Redirect,
)
    requires
        s0.wf(),
        create_post(s0, s1, req, user_id, created, Ok(())),
        redirect_post(s1, s2, s1.urls@.last().short_code@, hash, user_agent, referrer, now, r),
    ensures
        !expired_at(expiry_of(created, req.expires_in_days), now) ==> r is Found && r->Found_0@
            == req.url@,
        expired_at(expiry_of(created, req.expires_in_days), now) ==> r is Gone,
{
    let last = s1.urls@.len() - 1;
    assert(s1.urls@[last] == s1.urls@.last());
}

/// Once a link holds a custom code, every later request for that code is
/// refused as a conflict, whoever asks, and changes nothing.
pub proof fn custom_code_conflicts(
    s0: MemoryStore,
    s1: MemoryStore,
    s2: MemoryStore,
    first: UrlRequest,
    first_user: Option<String>,
    first_at: i64,
    second: UrlRequest,
    second_user: Option<String>,
    second_at: i64,
    r: Result<(), ShortenError>,
)
    requires
        s0.wf(),
        requested_code(first.custom_code) is Some,
        create_post(s0, s1, first, first_user, first_at, Ok(())),
        requested_code(second.custom_code) == requested_code(first.custom_code),
        url_is_valid(second.url@),
        create_post(s1, s2, second, second_user, second_at, r),
    ensures
        r == Err::<(), ShortenError>(ShortenError::CodeInUse),
        s2 == s1,
{
    let last = s1.urls@.len() - 1;
    assert(s1.urls@[last] == s1.urls@.last());
    assert(has_url(s1.urls@, requested_code(first.custom_code)->0));
}

/// After a QR code of a live link was served, asking again without forcing
/// returns the very same image and leaves the store as it is.
pub proof fn unforced_qr_is_cached(
    s0: MemoryStore,
    s1: MemoryStore,
    s2: MemoryStore,
    code: Seq<char>,
    target: TargetType,
    force: bool,
    host: Seq<char>,
    first_at: i64,
    r1: QrOutcome,
    second_host: Seq<char>,
    second_at: i64,
    r2: QrOutcome,
)
    requires
        s0.wf(),
        regenerate_post(s0, s1, code, target, force, host, first_at, r1),
        r1 is Rendered || r1 is Cached,
        forall|i: int|
            0 <= i < s1.urls@.len() && (#[trigger] s1.urls@[i]).short_code@ == code ==> !expired_at(
                s1.urls@[i].expires_at,
                second_at,
            ),
        regenerate_post(s1, s2, code, target, false, second_host, second_at, r2),
    ensures
        r2 is Cached,
        r1 is Rendered ==> r2->Cached_0@ == r1->Rendered_0@,
        r1 is Cached ==> r2->Cached_0@ == r1->Cached_0@,
        s2 == s1,
{
    let i = choose|i: int| 0 <= i < s0.urls@.len() && (#[trigger] s0.urls@[i]).short_code@ == code;
    assert(s1.urls@[i] == s0.urls@[i]);
    if r1 is Cached {
        let k = choose|k: int|
            0 <= k < s0.qr_codes@.len() && (#[trigger] s0.qr_codes@[k]).short_code@ == code
                && s0.qr_codes@[k].target_type == target;
        assert(s1.qr_codes@[k] == s0.qr_codes@[k]);
    } else if has_qr(s0.qr_codes@, code, target) {
        let k = choose|k: int|
            0 <= k < s0.qr_codes@.len() && (#[trigger] s0.qr_codes@[k]).short_code@ == code
                && s0.qr_codes@[k].target_type == target;
        assert(s1.qr_codes@[k].short_code@ == code && s1.qr_codes@[k].target_type == target);
    } else {
        let k = s1.qr_codes@.len() - 1;
        assert(s1.qr_codes@[k] == s1.qr_codes@.last());
        assert(s1.qr_codes@[k].short_code@ == code && s1.qr_codes@[k].target_type == target);
    }
}

/// A forced request for a live link's QR code that renders replaces the
/// cached image in place and stamps it with the request's time.
pub proof fn forced_qr_replaces_cache(
    s0: MemoryStore,
    s1: MemoryStore,
    code: Seq<char>,
    target: TargetType,
    host: Seq<char>,
    now: i64,
    r: QrOutcome,
    k: int,
)
    requires
        s0.wf(),
        0 <= k < s0.qr_codes@.len(),
        s0.qr_codes@[k].short_code@ == code,
        s0.qr_codes@[k].target_type == target,
        regenerate_post(s0, s1, code, target, true, host, now, r),
        r is Rendered,
    ensures
        s1.qr_codes@.len() == s0.qr_codes@.len(),
        s1.qr_codes@[k].svg_content == r->Rendered_0,
        s1.qr_codes@[k].generated_at == now,
        s1.qr_codes@[k].short_code == s0.qr_codes@[k].short_code,
        s1.qr_codes@[k].target_type == target,
{
    let i = choose|i: int| 0 <= i < s0.urls@.len() && (#[trigger] s0.urls@[i]).short_code@ == code;
    assert(s0.qr_codes@[k].short_code@ == code);
}

/// Two visits of a live link from the same address count two clicks but
/// raise its distinct-visitor count by at most one, and the second adds no
/// visitor row.
pub proof fn repeat_visit_counted_once(
    s0: MemoryStore,
    s1: MemoryStore,
    s2: MemoryStore,
    code: Seq<char>,
    hash: Seq<char>,
    first_agent: Option<String>,
    first_referrer: Option<String>,
    first_at: i64,
    r1: Redirect,
    second_agent: Option<String>,
    second_referrer: Option<String>,
    second_at: i64,
    r2: Redirect,
)
    requires
        s0.wf(),
        redirect_post(s0, s1, code, hash, first_agent, first_referrer, first_at, r1),
        r1 is Found,
        redirect_post(s1, s2, code, hash, second_agent, second_referrer, second_at, r2),
        r2 is Found,
    ensures
        forall|i: int|
            0 <= i < s0.urls@.len() && (#[trigger] s0.urls@[i]).short_code@ == code ==> {
                &&& s2.urls@[i].clicks == bumped(bumped(s0.urls@[i].clicks))
                &&& s0.urls@[i].clicks < i64::MAX - 1 ==> s2.urls@[i].clicks == s0.urls@[i].clicks + 2
            },
        has_visitor(s1.visitors@, code, hash),
        s2.visitors == s1.visitors,
        s2.visitors@.len() <= s0.visitors@.len() + 1,
        visitor_count(s2.visitors@, code) <= visitor_count(s0.visitors@, code) + 1,
{
    let i = choose|i: int| 0 <= i < s0.urls@.len() && (#[trigger] s0.urls@[i]).short_code@ == code;
    assert(s1.urls@[i].short_code@ == code);
    if !has_visitor(s0.visitors@, code, hash) {
        let k = s1.visitors@.len() - 1;
        assert(s1.visitors@[k] == s1.visitors@.last());
        s0.visitors@.lemma_filter_push(s1.visitors@.last(), visitor_of(code));
        assert(s1.visitors@ == s0.visitors@.push(s1.visitors@.last()));
    }
    assert forall|j: int|
        0 <= j < s0.urls@.len() && (#[trigger] s0.urls@[j]).short_code@ == code implies {
            &&& s2.urls@[j].clicks == bumped(bumped(s0.urls@[j].clicks))
            &&& s0.urls@[j].clicks < i64::MAX - 1 ==> s2.urls@[j].clicks == s0.urls@[j].clicks + 2
        } by {
        assert(s1.urls@[j].short_code@ == code);
    }
}

/// A run of `rs.len()` visits of `code` by the visitor hash `hash`, each
/// served as a redirect, taking the store through `states`.
pub open spec fn visit_run(
    states: Seq<MemoryStore>,
    code: Seq<char>,
    hash: Seq<char>,
    agents: Seq<Option<String>>,
    referrers: Seq<Option<String>>,
    times: Seq<i64>,
    rs: Seq<Redirect>,
) -> bool {
    &&& states.len() == rs.len() + 1
    &&& agents.len() == rs.len()
    &&& referrers.len() == rs.len()
    &&& times.len() == rs.len()
    &&& forall|j: int|
        0 <= j < rs.len() ==> redirect_post(
            states[j],
            states[j + 1],
            code,
            hash,
            agents[j],
            referrers[j],
            times[j],
            #[trigger] rs[j],
        ) && rs[j] is Found
}

/// What holds after the first `n` visits of a run.
proof fn lemma_visit_prefix(
    states: Seq<MemoryStore>,
    code: Seq<char>,
    hash: Seq<char>,
    agents: Seq<Option<String>>,
    referrers: Seq<Option<String>>,
    times: Seq<i64>,
    rs: Seq<Redirect>,
    i: int,
    n: int,
)
    requires
        states[0].wf(),
        visit_run(states, code, hash, agents, referrers, times, rs),
        0 <= i < states[0].urls@.len(),
        states[0].urls@[i].short_code@ == code,
        states[0].urls@[i].clicks + rs.len() <= i64::MAX,
        0 <= n <= rs.len(),
    ensures
        states[n].wf(),
        i < states[n].urls@.len(),
        states[n].urls@[i].short_code@ == code,
        states[n].urls@[i].clicks == states[0].urls@[i].clicks + n,
        n >= 1 ==> has_visitor(states[n].visitors@, code, hash),
        visitor_count(states[n].visitors@, code) == visitor_count(states[0].visitors@, code) + if n >= 1
            && !has_visitor(states[0].visitors@, code, hash) {
            1int
        } else {
            0int
        },
    decreases n,
{
    if n > 0 {
        lemma_visit_prefix(states, code, hash, agents, referrers, times, rs, i, n - 1);
        let old = states[n - 1];
        let new = states[n];
        let step = rs[n - 1];
        assert(states[(n - 1) + 1] == new);
        assert(redirect_post(old, new, code, hash, agents[n - 1], referrers[n - 1], times[n - 1], step));
        assert(old.urls@[i].short_code@ == code);
        assert(new.urls@[i] == clicked(old.urls@[i]));
        if !has_visitor(old.visitors@, code, hash) {
            let k = new.visitors@.len() - 1;
            assert(new.visitors@[k] == new.visitors@.last());
            assert(new.visitors@ == old.visitors@.push(new.visitors@.last()));
            old.visitors@.lemma_filter_push(new.visitors@.last(), visitor_of(code));
            if n >= 2 {
                assert(has_visitor(old.visitors@, code, hash));
            }
        }
    }
}

/// However many times (`rs.len()`) a live link is visited from the same
/// address, every visit counts a click, while its distinct-visitor count
/// rises by one only when that address had not visited it before.
pub proof fn repeat_visits_counted(
    states: Seq<MemoryStore>,
    code: Seq<char>,
    hash: Seq<char>,
    agents: Seq<Option<String>>,
    referrers: Seq<Option<String>>,
    times: Seq<i64>,
    rs: Seq<Redirect>,
    i: int,
)
    requires
        states[0].wf(),
        visit_run(states, code, hash, agents, referrers, times, rs),
        0 <= i < states[0].urls@.len(),
        states[0].urls@[i].short_code@ == code,
        states[0].urls@[i].clicks + rs.len() <= i64::MAX,
    ensures
        states.last().urls@[i].clicks == states[0].urls@[i].clicks + rs.len(),
        visitor_count(states.last().visitors@, code) <= visitor_count(states[0].visitors@, code) + 1,
        rs.len() >= 1 ==> (visitor_count(states.last().visitors@, code) == visitor_count(
            states[0].visitors@,
            code,
        ) + 1 <==> !has_visitor(states[0].visitors@, code, hash)),
{
    lemma_visit_prefix(states, code, hash, agents, referrers, times, rs, i, rs.len() as int);
    assert(states.last() == states[rs.len() as int]);
}

/// A delete asked for by anyone but the link's creator is refused and
/// leaves the store unchanged.
pub proof fn refused_delete_changes_nothing(
    s0: MemoryStore,
    s1: MemoryStore,
    code: Seq<char>,
    caller: Option<Seq<char>>,
    r: Result<(), DeleteError>,
)
    requires
        s0.wf(),
        forall|i: int|
            0 <= i < s0.urls@.len() && (#[trigger] s0.urls@[i]).short_code@ == code ==> !(
            s0.urls@[i].user_id is Some && caller == Some(s0.urls@[i].user_id->0@)),
        delete_post(s0, s1, code, caller, r),
    ensures
        r is Err,
        s1 == s0,
{
    if has_url(s0.urls@, code) {
        let i = choose|i: int| 0 <= i < s0.urls@.len() && (#[trigger] s0.urls@[i]).short_code@ == code;
    }
}

/// After a delete, the code is unknown to visits and no QR code or visitor
/// row of it is left.
pub proof fn delete_leaves_nothing(
    s0: MemoryStore,
    s1: MemoryStore,
    s2: MemoryStore,
    code: Seq<char>,
    caller: Option<Seq<char>>,
    hash: Seq<char>,
    user_agent: Option<String>,
    referrer: Option<String>,
    now: i64,
    r: Redirect,
)
    requires
        s0.wf(),
        delete_post(s0, s1, code, caller, Ok(())),
        redirect_post(s1, s2, code, hash, user_agent, referrer, now, r),
    ensures
        r is NotFound,
        s2 == s1,
        forall|k: int| 0 <= k < s1.qr_codes@.len() ==> (#[trigger] s1.qr_codes@[k]).short_code@ != code,
        forall|k: int| 0 <= k < s1.visitors@.len() ==> (#[trigger] s1.visitors@[k]).short_code@ != code,
{
}

/// Whether a delete succeeds depends on the links and the caller alone: the
/// QR codes and visitor rows there are to remove, or their absence, never
/// change the answer.
pub proof fn delete_answer_ignores_cascade(
    s0: MemoryStore,
    s1: MemoryStore,
    t0: MemoryStore,
    t1: MemoryStore,
    code: Seq<char>,
    caller: Option<Seq<char>>,
    r: Result<(), DeleteError>,
    q: Result<(), DeleteError>,
)
    requires
        s0.urls == t0.urls,
        delete_post(s0, s1, code, caller, r),
        delete_post(t0, t1, code, caller, q),
    ensures
        r == q,
{
}

} // verus!
