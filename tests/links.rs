use makemeshort::qr_code::{new_direct_code, render_qr, QrCode, TargetType};
use makemeshort::qr_handlers::{generate_direct_qr, regenerate_qr, target_url, DirectQrOutcome, QrOutcome};
use makemeshort::qr_request::{CreateQrRequest, QrCodeResponse};
use makemeshort::url::{generate_short_code, short_url, ShortenedUrl};
use makemeshort::url_handlers::{
    create_short_url, delete_short_url, new_visitor, next_click_count, redirect_to_url, DeleteError, Redirect, ShortenError,
};
use makemeshort::url_request::{UrlAnalyticsResponse, UrlListResponse, UrlRequest, UrlResponse};
use makemeshort::url_visitor::{hash_ip, UrlVisitor};

const DAY: i64 = 86_400_000;

fn link(code: &str, expires_at: Option<i64>, owner: Option<&str>) -> ShortenedUrl {
    let mut u = ShortenedUrl::new_at(
        "https://example.com/page".to_string(),
        code.to_string(),
        None,
        owner.map(|o| o.to_string()),
        1_000,
    );
    u.expires_at = expires_at;
    u
}

fn request(url: &str, custom: Option<&str>, days: Option<u32>) -> UrlRequest {
    UrlRequest { url: url.to_string(), custom_code: custom.map(|c| c.to_string()), expires_in_days: days }
}

#[test]
fn new_link_sets_expiry_in_days() {
    let u = ShortenedUrl::new_at("https://a.org".to_string(), "abc".to_string(), Some(2), None, 5_000);
    assert_eq!(u.created_at, Some(5_000));
    assert_eq!(u.expires_at, Some(5_000 + 2 * DAY));
    assert_eq!(u.clicks, 0);
    assert!(u.id.is_none());
    let v = ShortenedUrl::new_at("https://a.org".to_string(), "abc".to_string(), None, None, 5_000);
    assert_eq!(v.expires_at, None);
}

#[test]
fn largest_expiry_fits() {
    let u = ShortenedUrl::new_at("https://a.org".to_string(), "x".to_string(), Some(u32::MAX), None, 0);
    assert_eq!(u.expires_at, Some(u32::MAX as i64 * DAY));
}

#[test]
fn expiry_is_strictly_after() {
    let u = link("c", Some(10_000), None);
    assert!(!u.is_expired_at(10_000));
    assert!(u.is_expired_at(10_001));
    assert!(!link("c", None, None).is_expired_at(i64::MAX));
    assert!(!link("c", None, None).is_expired());
    assert!(link("c", Some(0), None).is_expired());
}

#[test]
fn short_url_joins_host_and_code() {
    assert_eq!(short_url("http://localhost:8080", "abc123"), "http://localhost:8080/r/abc123");
}

#[test]
fn generated_codes_are_url_safe() {
    let c = generate_short_code();
    assert_eq!(c.chars().count(), 6);
    assert!(c.chars().all(|ch| ch.is_ascii_alphanumeric() || ch == '_' || ch == '-'));
}

#[test]
fn shorten_rejects_invalid_url() {
    let r = create_short_url(request("not a url", None, None), None, false, 0);
    assert!(matches!(r, Err(ShortenError::InvalidUrl)));
}

#[test]
fn shorten_rejects_taken_custom_code() {
    let r = create_short_url(request("https://example.com", Some("mine"), None), None, true, 0);
    assert!(matches!(r, Err(ShortenError::CodeInUse)));
}

#[test]
fn shorten_uses_free_custom_code() {
    let r = create_short_url(request("https://example.com", Some("mine"), Some(1)), Some("u1".to_string()), false, 7)
        .ok()
        .unwrap();
    assert_eq!(r.short_code, "mine");
    assert_eq!(r.original_url, "https://example.com");
    assert_eq!(r.expires_at, Some(7 + DAY));
    assert_eq!(r.user_id.as_deref(), Some("u1"));
}

#[test]
fn shorten_draws_code_when_custom_empty() {
    let r = create_short_url(request("https://example.com", Some(""), None), None, true, 0).ok().unwrap();
    assert_eq!(r.short_code.chars().count(), 6);
}

#[test]
fn redirect_outcomes() {
    assert!(matches!(redirect_to_url(None, 0), Redirect::NotFound));
    let u = link("c", Some(100), None);
    assert!(matches!(redirect_to_url(Some(&u), 101), Redirect::Gone));
    match redirect_to_url(Some(&u), 100) {
        Redirect::Found(target) => assert_eq!(target, "https://example.com/page"),
        _ => panic!("expected a redirect"),
    }
}

#[test]
fn delete_needs_owner() {
    let u = link("c", None, Some("alice"));
    assert!(matches!(delete_short_url(Some(&u), None), Err(DeleteError::NotAuthenticated)));
    assert!(matches!(delete_short_url(None, Some("alice")), Err(DeleteError::NotFound)));
    assert!(matches!(delete_short_url(Some(&u), Some("bob")), Err(DeleteError::Forbidden)));
    assert!(matches!(delete_short_url(Some(&u), Some("alice")), Ok(())));
    let anon = link("c", None, None);
    assert!(matches!(delete_short_url(Some(&anon), Some("alice")), Err(DeleteError::Forbidden)));
}

#[test]
fn visitor_hash_is_salted_sha256() {
    let h = hash_ip("127.0.0.1");
    assert_eq!(h, "d7e15add08573dd5e8f66b5360bc76c426fae91973db725624d1701a5ab409af");
    assert_ne!(hash_ip("127.0.0.2"), h);
}

#[test]
fn visitor_record_holds_fields() {
    let v = UrlVisitor::new_at("c".to_string(), "h".to_string(), Some("agent".to_string()), None, 42);
    assert_eq!(v.short_code, "c");
    assert_eq!(v.visitor_hash, "h");
    assert_eq!(v.timestamp, 42);
    assert_eq!(v.user_agent.as_deref(), Some("agent"));
}

#[test]
fn target_types_read_and_print() {
    assert_eq!(TargetType::from_url_type(Some("original")), TargetType::Original);
    assert_eq!(TargetType::from_url_type(Some("Original")), TargetType::Shortened);
    assert_eq!(TargetType::from_url_type(None), TargetType::Shortened);
    assert_eq!(TargetType::Original.as_str(), "original");
    assert_eq!(TargetType::Shortened.as_str(), "shortened");
    assert_eq!(TargetType::parse_filter("shortened"), Some(TargetType::Shortened));
    assert_eq!(TargetType::parse_filter("other"), None);
}

#[test]
fn renders_svg_and_refuses_oversized_data() {
    let svg = render_qr("https://example.com", 200).unwrap();
    assert!(svg.contains("<svg"));
    assert_ne!(svg, "https://example.com");
    let big = "x".repeat(5000);
    assert!(render_qr(&big, 200).is_none());
}

#[test]
fn direct_codes_have_prefix_and_hex() {
    let c = new_direct_code();
    assert!(c.starts_with("direct-"));
    assert_eq!(c.len(), 15);
    assert!(c[7..].chars().all(|ch| ch.is_ascii_hexdigit() && !ch.is_ascii_uppercase()));
}

#[test]
fn qr_target_text() {
    let u = link("abc", None, None);
    assert_eq!(target_url(&u, TargetType::Original, "http://h"), "https://example.com/page");
    assert_eq!(target_url(&u, TargetType::Shortened, "http://h"), "http://h/r/abc");
}

#[test]
fn regenerate_qr_outcomes() {
    let u = link("abc", Some(100), None);
    let cached = QrCode::new_at("abc".to_string(), "x".to_string(), "<svg/>".to_string(), TargetType::Shortened, None, 1);
    assert!(matches!(regenerate_qr(None, None, TargetType::Shortened, false, "http://h", 0), QrOutcome::UrlNotFound));
    assert!(matches!(regenerate_qr(Some(&u), Some(&cached), TargetType::Shortened, false, "http://h", 101), QrOutcome::Expired));
    match regenerate_qr(Some(&u), Some(&cached), TargetType::Shortened, false, "http://h", 0) {
        QrOutcome::Cached(s) => assert_eq!(s, "<svg/>"),
        _ => panic!("expected the cached image"),
    }
    match regenerate_qr(Some(&u), Some(&cached), TargetType::Shortened, true, "http://h", 0) {
        QrOutcome::Rendered(s) => assert_eq!(s, render_qr("http://h/r/abc", 200).unwrap()),
        _ => panic!("expected a new image"),
    }
}

#[test]
fn direct_qr_outcomes() {
    let req = CreateQrRequest { url: "bad url".to_string(), size: None, force_regenerate: None };
    assert!(matches!(generate_direct_qr(&req, None, None, 0), DirectQrOutcome::InvalidUrl));
    let req = CreateQrRequest { url: "https://example.com".to_string(), size: Some(300), force_regenerate: None };
    match generate_direct_qr(&req, None, Some("u".to_string()), 9) {
        DirectQrOutcome::Created(q) => {
            assert!(q.short_code.starts_with("direct-"));
            assert_eq!(q.original_url, "https://example.com");
            assert_eq!(q.target_type, TargetType::Original);
            assert_eq!(q.generated_at, 9);
            assert_eq!(q.svg_content, render_qr("https://example.com", 300).unwrap());
        }
        _ => panic!("expected a new entry"),
    }
    let existing = QrCode::new_at("direct-0a1b2c3d".to_string(), "https://example.com".to_string(), "<old/>".to_string(), TargetType::Original, None, 1);
    match generate_direct_qr(&req, Some(&existing), None, 9) {
        DirectQrOutcome::Cached(s) => assert_eq!(s, "<old/>"),
        _ => panic!("expected the cached image"),
    }
    let forced = CreateQrRequest { url: "https://example.com".to_string(), size: None, force_regenerate: Some(true) };
    match generate_direct_qr(&forced, Some(&existing), None, 9) {
        DirectQrOutcome::Refreshed(q) => {
            assert_eq!(q.short_code, "direct-0a1b2c3d");
            assert_eq!(q.generated_at, 9);
            assert_eq!(q.svg_content, render_qr("https://example.com", 200).unwrap());
        }
        _ => panic!("expected the refreshed entry"),
    }
    let huge = CreateQrRequest { url: "https://example.com".to_string(), size: Some(u32::MAX), force_regenerate: None };
    assert!(matches!(generate_direct_qr(&huge, None, None, 9), DirectQrOutcome::SizeTooLarge));
}

#[test]
fn qr_listing_entry() {
    let q = QrCode::new_at("direct-12345678".to_string(), "https://e.com".to_string(), "<s/>".to_string(), TargetType::Original, Some("u".to_string()), 3);
    assert!(q.is_direct());
    let r = QrCodeResponse::from_qr(q, Some("u"));
    assert_eq!(r.id, "");
    assert_eq!(r.target_type, "original");
    assert!(r.is_direct);
    assert!(r.owned_by_current_user);
}

#[test]
fn link_responses() {
    let u = link("abc", Some(5), Some("u"));
    let r = UrlResponse::for_link(u, "http://h");
    assert_eq!(r.short_url, "http://h/r/abc");
    assert_eq!(r.expires_at, Some(5));
    let row = UrlListResponse::from_parts(link("abc", None, Some("u")), 3, true, false, Some("v"));
    assert_eq!(row.unique_clicks, 3);
    assert!(row.has_shortened_qr && !row.has_original_qr);
    assert!(!row.owned_by_current_user);
    let qr = QrCode::new_at("abc".to_string(), "x".to_string(), "s".to_string(), TargetType::Original, None, 77);
    let a = UrlAnalyticsResponse::from_parts(link("abc", None, None), 2, None, Some(&qr));
    assert!(!a.has_shortened_qr && a.has_original_qr);
    assert_eq!(a.original_qr_generated_at, Some(77));
    assert_eq!(a.shortened_qr_generated_at, None);
}

#[test]
fn visit_decisions() {
    assert_eq!(next_click_count(4), 5);
    assert_eq!(next_click_count(i64::MAX), i64::MAX);
    assert!(new_visitor(true, "c".to_string(), "h".to_string(), None, None, 1).is_none());
    let v = new_visitor(false, "c".to_string(), "h".to_string(), None, Some("r".to_string()), 1).unwrap();
    assert_eq!(v.visitor_hash, "h");
    assert_eq!(v.timestamp, 1);
    assert_eq!(v.referrer.as_deref(), Some("r"));
}

#[test]
fn visitor_hash_is_lowercase_hex() {
    assert!(hash_ip("::1").chars().all(|c| c.is_ascii_digit() || ('a'..='f').contains(&c)));
}
