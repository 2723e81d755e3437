use makemeshort::auth::{
    create_superuser, create_user, edit_user, login, login_decision, signup, signup_allowed,
    valid_user_id, AccountError, LoginError,
};
use makemeshort::authmw::{AuthFailure, AuthGate, AuthField, JwtAuth};
use makemeshort::jwt::{Claims, TOKEN_LIFETIME_SECS};
use makemeshort::res_owner::{OwnershipFailure, ResourceOwnership};
use makemeshort::role::{has_required_role, Role};
use makemeshort::user::{User, UserResponse};
use makemeshort::user_request::{CreateUserRequest, EditUserRequest, SignupRequest, UserResponse as StoredUserResponse};

const HASH: &str = "$2b$04$EGdrhbKUv8Oc9vGiXX0HQOxSg445d458Muh7DAHskb6QbtCvdxcie";
const PASSWORD: &str = "correctbatteryhorsestapler";

fn account(active: bool, hash: &str) -> User {
    let mut u = User::new_at("ann".to_string(), None, None, hash.to_string(), 10);
    u.is_active = active;
    u
}

#[test]
fn login_accepts_matching_password() {
    assert_eq!(login(Some(&account(true, HASH)), PASSWORD), Ok(()));
}

#[test]
fn login_refusals() {
    assert_eq!(login(None, PASSWORD), Err(LoginError::InvalidCredentials));
    assert_eq!(login(Some(&account(true, HASH)), "wrong"), Err(LoginError::InvalidCredentials));
    assert_eq!(login(Some(&account(false, HASH)), PASSWORD), Err(LoginError::AccountDisabled));
    assert_eq!(login(Some(&account(true, "not-a-hash")), PASSWORD), Err(LoginError::VerifyFailed));
}

#[test]
fn login_decision_by_verdict() {
    let u = account(true, HASH);
    assert_eq!(login_decision(Some(&u), Some(true)), Ok(()));
    assert_eq!(login_decision(Some(&u), Some(false)), Err(LoginError::InvalidCredentials));
    assert_eq!(login_decision(Some(&u), None), Err(LoginError::VerifyFailed));
}

#[test]
fn signup_setting() {
    assert!(signup_allowed(Some("true")));
    assert!(signup_allowed(Some("TRUE")));
    assert!(!signup_allowed(Some("yes")));
    assert!(!signup_allowed(None));
}

#[test]
fn signup_refusals() {
    let req = || SignupRequest { username: "ann".to_string(), email: None, full_name: None, password: "pw".to_string() };
    assert!(matches!(signup(req(), Some("false"), false, 0), Err(AccountError::SignupDisabled)));
    assert!(matches!(signup(req(), Some("True"), true, 0), Err(AccountError::UsernameTaken)));
}

#[test]
fn created_user_can_log_in() {
    let req = CreateUserRequest {
        username: "bob".to_string(),
        email: Some("b@x.org".to_string()),
        full_name: None,
        password: "s3cret".to_string(),
    };
    let u = create_user(req, false, 99).ok().unwrap();
    assert_eq!(u.username, "bob");
    assert_ne!(u.password_hash, "s3cret");
    assert!(u.is_active && u.roles.is_empty());
    assert_eq!(u.created_at, 99);
    assert_eq!(login(Some(&u), "s3cret"), Ok(()));
}

#[test]
fn create_user_refuses_taken_name() {
    let req = CreateUserRequest { username: "bob".to_string(), email: None, full_name: None, password: "x".to_string() };
    assert!(matches!(create_user(req, true, 0), Err(AccountError::UsernameTaken)));
}

#[test]
fn superuser_only_on_empty_store() {
    assert!(matches!(create_superuser(3, "root".to_string(), "pw", 0), Err(AccountError::AlreadyInitialized)));
}

#[test]
fn edit_applies_given_fields_only() {
    let mut u = account(true, HASH);
    let req = EditUserRequest {
        username: None,
        full_name: Some("Ann Lee".to_string()),
        password: None,
        is_active: Some(false),
        roles: Some(vec![Role::UrlViewer]),
    };
    assert!(edit_user(&mut u, req, 500).is_ok());
    assert_eq!(u.username, "ann");
    assert_eq!(u.full_name.as_deref(), Some("Ann Lee"));
    assert!(!u.is_active);
    assert_eq!(u.roles, vec![Role::UrlViewer]);
    assert_eq!(u.updated_at, 500);
    assert_eq!(u.created_at, 10);
    assert_eq!(u.password_hash, HASH);
}

#[test]
fn last_login_is_recorded() {
    let mut u = account(true, HASH);
    u.record_login_at(1234);
    assert_eq!(u.last_login, Some(1234));
    u.update_last_login();
    assert!(u.last_login.is_some());
}

#[test]
fn user_views_hide_the_hash() {
    let mut u = account(true, HASH);
    let shown = UserResponse::from_user(account(true, HASH));
    assert_eq!(shown.id, "");
    assert_eq!(shown.username, "ann");
    u.id = Some("65f1c0ffee0000000000abcd".to_string());
    let stored = StoredUserResponse::from_user(u);
    assert_eq!(stored.id, "65f1c0ffee0000000000abcd");
    assert_eq!(stored.updated_at, 10);
}

#[test]
fn user_ids_are_24_hex_digits() {
    assert!(valid_user_id("65f1c0ffee0000000000ABCD"));
    assert!(!valid_user_id("65f1c0ffee0000000000abc"));
    assert!(!valid_user_id("65f1c0ffee0000000000abcg"));
}

#[test]
fn role_labels_and_gate() {
    assert_eq!(Role::SystemAdmin.label(), "System Administrator");
    assert_eq!(Role::QrCreator.label(), "QR Creator");
    assert!(has_required_role(&vec![Role::SuperUser], &vec![Role::UserManager]));
    assert!(has_required_role(&vec![Role::UrlViewer, Role::QrViewer], &vec![Role::QrViewer]));
    assert!(!has_required_role(&vec![Role::UrlViewer], &vec![Role::UrlManager]));
    assert!(!has_required_role(&vec![], &vec![Role::UrlManager]));
}

#[test]
fn token_gate() {
    let gate = JwtAuth.new_transform(());
    assert!(matches!(gate.gate("/r/abc", &AuthField::Missing), AuthGate::Public));
    assert!(matches!(gate.gate("/api/health/check", &AuthField::Missing), AuthGate::Public));
    assert!(matches!(gate.gate("/api/urls", &AuthField::Missing), AuthGate::Reject(AuthFailure::NoHeader)));
    assert!(matches!(gate.gate("/api/urls", &AuthField::Unreadable), AuthGate::Reject(AuthFailure::InvalidHeader)));
    assert!(matches!(
        gate.gate("/api/urls", &AuthField::Text("Basic abc".to_string())),
        AuthGate::Reject(AuthFailure::InvalidFormat)
    ));
    match gate.gate("/api/urls", &AuthField::Text("Bearer tok.en".to_string())) {
        AuthGate::Validate(t) => assert_eq!(t, "tok.en"),
        _ => panic!("expected a token"),
    }
}

#[test]
fn ownership_gate() {
    let mw = ResourceOwnership { param_name: "user_id".to_string() }.new_transform(());
    assert_eq!(mw.owner_param(), "user_id");
    assert_eq!(mw.gate(None, Some("a")), Err(OwnershipFailure::NotAuthenticated));
    assert_eq!(mw.gate(Some("a"), None), Ok(()));
    assert_eq!(mw.gate(Some("a"), Some("a")), Ok(()));
    assert_eq!(mw.gate(Some("a"), Some("b")), Err(OwnershipFailure::NotOwner));
}

#[test]
fn claims_last_ten_days() {
    let c = Claims::issue("ann", "id1", 1_000);
    assert_eq!(c.sub, "ann");
    assert_eq!(c.user_id, "id1");
    assert_eq!(c.iat, 1_000);
    assert_eq!(c.exp, 1_000 + 864_000);
    assert_eq!(TOKEN_LIFETIME_SECS, 864_000);
}

#[test]
fn edited_password_verifies() {
    let mut u = account(true, HASH);
    let req = EditUserRequest { username: None, full_name: None, password: Some("n3w".to_string()), is_active: None, roles: None };
    assert!(edit_user(&mut u, req, 7).is_ok());
    assert_eq!(login(Some(&u), "n3w"), Ok(()));
    assert_eq!(login(Some(&u), PASSWORD), Err(LoginError::InvalidCredentials));
}
