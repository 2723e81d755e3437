use makemeshort::listing::{get_all_qr_codes, get_all_urls, get_user_urls};
use makemeshort::qr_code::{QrCode, TargetType};
use makemeshort::qr_handlers::QrOutcome;
use makemeshort::qr_request::QrSearchParams;
use makemeshort::store::MemoryStore;
use makemeshort::text::{contains_text, matches_search};
use makemeshort::url::ShortenedUrl;
use makemeshort::url_handlers::{DeleteError, Redirect, ShortenError};
use makemeshort::url_request::{UrlRequest, UrlSearchParams};

const DAY: i64 = 86_400_000;

fn request(custom: Option<&str>, days: Option<u32>) -> UrlRequest {
    UrlRequest {
        url: "https://example.com/long".to_string(),
        custom_code: custom.map(|c| c.to_string()),
        expires_in_days: days,
    }
}

fn visit(s: &mut MemoryStore, code: &str, hash: &str, now: i64) -> Redirect {
    s.redirect_to_url(code, hash.to_string(), None, None, now)
}

#[test]
fn redirect_before_and_after_expiry() {
    let mut s = MemoryStore::new();
    assert!(s.create_short_url(request(Some("go"), Some(1)), None, 0).is_ok());
    match visit(&mut s, "go", "h", DAY) {
        Redirect::Found(u) => assert_eq!(u, "https://example.com/long"),
        _ => panic!("expected a redirect"),
    }
    assert!(matches!(visit(&mut s, "go", "h", DAY + 1), Redirect::Gone));
    assert!(matches!(visit(&mut s, "nope", "h", 0), Redirect::NotFound));
}

#[test]
fn custom_code_is_unique_across_callers() {
    let mut s = MemoryStore::new();
    assert!(s.create_short_url(request(Some("promo"), None), Some("alice".to_string()), 0).is_ok());
    let r = s.create_short_url(request(Some("promo"), None), Some("bob".to_string()), 1);
    assert_eq!(r, Err(ShortenError::CodeInUse));
    assert_eq!(s.urls.len(), 1);
    assert_eq!(s.urls[0].user_id.as_deref(), Some("alice"));
}

#[test]
fn random_codes_are_stored() {
    let mut s = MemoryStore::new();
    assert!(s.create_short_url(request(None, None), None, 0).is_ok());
    assert_eq!(s.urls[0].short_code.chars().count(), 6);
    assert_eq!(s.create_short_url(UrlRequest { url: "nope".to_string(), custom_code: None, expires_in_days: None }, None, 0), Err(ShortenError::InvalidUrl));
}

#[test]
fn unforced_qr_is_byte_identical() {
    let mut s = MemoryStore::new();
    assert!(s.create_short_url(request(Some("qr"), None), None, 0).is_ok());
    let first = match s.regenerate_qr("qr", TargetType::Shortened, false, "http://h", 10) {
        QrOutcome::Rendered(svg) => svg,
        _ => panic!("expected a new image"),
    };
    assert_eq!(s.qr_codes.len(), 1);
    assert_eq!(s.qr_codes[0].generated_at, 10);
    match s.regenerate_qr("qr", TargetType::Shortened, false, "http://other", 20) {
        QrOutcome::Cached(svg) => assert_eq!(svg, first),
        _ => panic!("expected the cached image"),
    }
    assert_eq!(s.qr_codes[0].generated_at, 10);
}

#[test]
fn forced_qr_replaces_cache() {
    let mut s = MemoryStore::new();
    assert!(s.create_short_url(request(Some("qr"), None), None, 0).is_ok());
    s.qr_codes.push(QrCode::new_at("qr".to_string(), "x".to_string(), "<old/>".to_string(), TargetType::Original, None, 1));
    match s.regenerate_qr("qr", TargetType::Original, true, "http://h", 30) {
        QrOutcome::Rendered(svg) => {
            assert_ne!(svg, "<old/>");
            assert_eq!(s.qr_codes.len(), 1);
            assert_eq!(s.qr_codes[0].svg_content, svg);
            assert_eq!(s.qr_codes[0].generated_at, 30);
        }
        _ => panic!("expected a new image"),
    }
}

#[test]
fn qr_for_missing_or_expired_link() {
    let mut s = MemoryStore::new();
    assert!(matches!(s.regenerate_qr("none", TargetType::Original, false, "h", 0), QrOutcome::UrlNotFound));
    assert!(s.create_short_url(request(Some("old"), Some(0)), None, 0).is_ok());
    assert!(matches!(s.regenerate_qr("old", TargetType::Original, false, "h", 1), QrOutcome::Expired));
    assert!(s.qr_codes.is_empty());
}

#[test]
fn repeat_visits_count_clicks_not_visitors() {
    let mut s = MemoryStore::new();
    assert!(s.create_short_url(request(Some("v"), None), None, 0).is_ok());
    let h = makemeshort::url_visitor::hash_ip("10.0.0.1");
    for t in 0..3 {
        assert!(matches!(visit(&mut s, "v", &h, t), Redirect::Found(_)));
    }
    assert_eq!(s.urls[0].clicks, 3);
    assert_eq!(s.visitors.len(), 1);
    assert!(matches!(visit(&mut s, "v", "other", 5), Redirect::Found(_)));
    assert_eq!(s.urls[0].clicks, 4);
    assert_eq!(s.visitors.len(), 2);
}

#[test]
fn clicks_stop_at_the_largest_count() {
    let mut s = MemoryStore::new();
    let mut u = ShortenedUrl::new_at("https://e.com".to_string(), "m".to_string(), None, None, 0);
    u.clicks = i64::MAX;
    s.urls.push(u);
    assert!(matches!(visit(&mut s, "m", "h", 0), Redirect::Found(_)));
    assert_eq!(s.urls[0].clicks, i64::MAX);
}

#[test]
fn refused_delete_changes_nothing() {
    let mut s = MemoryStore::new();
    assert!(s.create_short_url(request(Some("d"), None), Some("alice".to_string()), 0).is_ok());
    assert!(matches!(visit(&mut s, "d", "h", 1), Redirect::Found(_)));
    assert_eq!(s.delete_short_url("d", Some("bob")), Err(DeleteError::Forbidden));
    assert_eq!(s.delete_short_url("d", None), Err(DeleteError::NotAuthenticated));
    assert_eq!(s.delete_short_url("zz", Some("alice")), Err(DeleteError::NotFound));
    assert_eq!(s.urls.len(), 1);
    assert_eq!(s.visitors.len(), 1);
    assert_eq!(s.urls[0].clicks, 1);
}

#[test]
fn delete_cascades_to_qr_and_visitors() {
    let mut s = MemoryStore::new();
    assert!(s.create_short_url(request(Some("d"), None), Some("alice".to_string()), 0).is_ok());
    assert!(s.create_short_url(request(Some("keep"), None), Some("alice".to_string()), 0).is_ok());
    assert!(matches!(s.regenerate_qr("d", TargetType::Original, false, "h", 0), QrOutcome::Rendered(_)));
    assert!(matches!(s.regenerate_qr("keep", TargetType::Original, false, "h", 0), QrOutcome::Rendered(_)));
    assert!(matches!(visit(&mut s, "d", "h1", 1), Redirect::Found(_)));
    assert!(matches!(visit(&mut s, "keep", "h1", 1), Redirect::Found(_)));
    assert_eq!(s.delete_short_url("d", Some("alice")), Ok(()));
    assert_eq!(s.urls.len(), 1);
    assert_eq!(s.urls[0].short_code, "keep");
    assert_eq!(s.qr_codes.len(), 1);
    assert_eq!(s.qr_codes[0].short_code, "keep");
    assert_eq!(s.visitors.len(), 1);
    assert_eq!(s.visitors[0].short_code, "keep");
    assert!(matches!(visit(&mut s, "d", "h1", 2), Redirect::NotFound));
}

#[test]
fn delete_without_qr_or_visitors_succeeds() {
    let mut s = MemoryStore::new();
    assert!(s.create_short_url(request(Some("bare"), None), Some("alice".to_string()), 0).is_ok());
    assert_eq!(s.delete_short_url("bare", Some("alice")), Ok(()));
    assert!(s.urls.is_empty());
}

#[test]
fn text_search_ignores_case() {
    assert!(contains_text("abcdef", "cde"));
    assert!(contains_text("abc", ""));
    assert!(!contains_text("abc", "abcd"));
    assert!(matches_search("https://Example.COM", "example"));
    assert!(!matches_search("https://example.com", "exemple"));
}

#[test]
fn link_listing_filters() {
    let params = UrlSearchParams { search: Some("EXA".to_string()), owned_only: Some(true) };
    let f = get_all_urls(&params, Some("alice"));
    assert_eq!(f.owner.as_deref(), Some("alice"));
    let mine = ShortenedUrl::new_at("https://example.com".to_string(), "a1".to_string(), None, Some("alice".to_string()), 0);
    let theirs = ShortenedUrl::new_at("https://example.com".to_string(), "a2".to_string(), None, Some("bob".to_string()), 0);
    let other = ShortenedUrl::new_at("https://rust-lang.org".to_string(), "a3".to_string(), None, Some("alice".to_string()), 0);
    assert!(f.selects(&mine));
    assert!(!f.selects(&theirs));
    assert!(!f.selects(&other));
    let all = get_all_urls(&UrlSearchParams { search: Some(String::new()), owned_only: Some(true) }, None);
    assert!(all.search.is_none() && all.owner.is_none());
    assert!(all.selects(&theirs));
    let by_user = get_user_urls("bob", &UrlSearchParams { search: None, owned_only: None });
    assert!(by_user.selects(&theirs) && !by_user.selects(&mine));
}

#[test]
fn qr_listing_filters() {
    let params = QrSearchParams {
        search: None,
        target_type: Some("original".to_string()),
        direct_only: Some(true),
        owned_only: None,
    };
    let f = get_all_qr_codes(&params, Some("alice"));
    let direct = QrCode::new_at("direct-abcdef01".to_string(), "https://e.com".to_string(), "s".to_string(), TargetType::Original, None, 0);
    let linked = QrCode::new_at("abc".to_string(), "https://e.com".to_string(), "s".to_string(), TargetType::Original, None, 0);
    assert_eq!(f.selects(&direct), Some(true));
    assert_eq!(f.selects(&linked), Some(false));
    let pattern = get_all_qr_codes(&QrSearchParams { search: Some("^A.C$".to_string()), target_type: None, direct_only: None, owned_only: None }, None);
    assert_eq!(pattern.selects(&linked), Some(true));
    assert_eq!(pattern.selects(&direct), Some(false));
    let invalid = get_all_qr_codes(&QrSearchParams { search: Some("[".to_string()), target_type: None, direct_only: None, owned_only: None }, None);
    assert_eq!(invalid.selects(&linked), None);
    let bad = QrSearchParams { search: None, target_type: Some("sideways".to_string()), direct_only: None, owned_only: None };
    assert!(get_all_qr_codes(&bad, None).target.is_none());
}

#[test]
fn analytics_counts_visitors_and_qr_codes() {
    let mut s = MemoryStore::new();
    assert!(s.get_url_analytics("a").is_none());
    assert_eq!(s.create_short_url(request(Some("a"), Some(3)), Some("u".to_string()), 100), Ok(()));
    assert!(matches!(visit(&mut s, "a", "h1", 1), Redirect::Found(_)));
    assert!(matches!(visit(&mut s, "a", "h2", 2), Redirect::Found(_)));
    assert!(matches!(visit(&mut s, "a", "h1", 3), Redirect::Found(_)));
    assert!(matches!(s.regenerate_qr("a", TargetType::Shortened, false, "h", 55), QrOutcome::Rendered(_)));
    let a = s.get_url_analytics("a").unwrap();
    assert_eq!(a.clicks, 3);
    assert_eq!(a.unique_clicks, 2);
    assert!(a.has_shortened_qr && !a.has_original_qr);
    assert_eq!(a.shortened_qr_generated_at, Some(55));
    assert_eq!(a.original_qr_generated_at, None);
    assert_eq!(a.expires_at, Some(100 + 3 * DAY));
    assert_eq!(s.count_visitors("a"), 2);
}

#[test]
fn store_listings() {
    let mut s = MemoryStore::new();
    assert!(s.create_short_url(request(Some("one"), None), Some("alice".to_string()), 0).is_ok());
    assert!(s.create_short_url(request(Some("two"), None), Some("bob".to_string()), 0).is_ok());
    assert!(matches!(visit(&mut s, "two", "h", 0), Redirect::Found(_)));
    assert!(matches!(s.regenerate_qr("two", TargetType::Original, false, "h", 0), QrOutcome::Rendered(_)));
    let everyone = get_all_urls(&UrlSearchParams { search: None, owned_only: None }, Some("bob"));
    let rows = s.list_urls(&everyone, Some("bob"));
    assert_eq!(rows.len(), 2);
    assert_eq!(rows[0].short_code, "one");
    assert!(!rows[0].owned_by_current_user);
    assert_eq!(rows[1].unique_clicks, 1);
    assert!(rows[1].has_original_qr && !rows[1].has_shortened_qr);
    assert!(rows[1].owned_by_current_user);
    let alice = s.list_urls(&get_user_urls("alice", &UrlSearchParams { search: Some("ONE".to_string()), owned_only: None }), None);
    assert_eq!(alice.len(), 1);
    let qrs = s.list_qr_codes(&get_all_qr_codes(&QrSearchParams { search: Some("^T.o$".to_string()), target_type: None, direct_only: None, owned_only: None }, None), None).unwrap();
    assert_eq!(qrs.len(), 1);
    assert_eq!(qrs[0].short_code, "two");
    assert!(!qrs[0].is_direct);
    let none = s.list_qr_codes(&get_all_qr_codes(&QrSearchParams { search: None, target_type: None, direct_only: Some(true), owned_only: None }, None), None).unwrap();
    assert!(none.is_empty());
    let bad = get_all_qr_codes(&QrSearchParams { search: Some("(".to_string()), target_type: None, direct_only: None, owned_only: None }, None);
    assert!(s.list_qr_codes(&bad, None).is_none());
    assert!(MemoryStore::new().list_qr_codes(&bad, None).unwrap().is_empty());
}
