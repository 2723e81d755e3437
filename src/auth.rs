use vstd::prelude::*;
use vstd::string::StrSliceExecFns;

use crate::role::Role;
use crate::text::{lowercase_of, same_text, to_lowercase};
use crate::user::User;
use crate::user_request::{CreateUserRequest, EditUserRequest, SignupRequest, UserResponse};

verus! {

/// Credentials sent to log in.
pub struct LoginRequest {
    pub username: String,
    pub password: String,
}

/// A session token and the account it was issued for.
pub struct LoginResponse {
    pub token: String,
    pub user: UserResponse,
}

/// Why a login is refused.
#[derive(Debug, Clone, Copy, PartialEq, Eq, Structural)]
pub enum LoginError {
    /// No such account, or the password does not match it.
    InvalidCredentials,
    /// The account exists but is disabled.
    AccountDisabled,
    /// The stored hash could not be read.
    VerifyFailed,
}

/// Why an account cannot be created or changed.
#[derive(Debug, Clone, Copy, PartialEq, Eq, Structural)]
pub enum AccountError {
    /// Another account already has the username.
    UsernameTaken,
    /// Accounts exist already, so there is no superuser to bootstrap.
    AlreadyInitialized,
    /// Hashing the password failed.
    HashFailed,
    /// Public signup is switched off.
    SignupDisabled,
}

/// bcrypt's cost factor for new password hashes (its default).
pub const PASSWORD_COST: u32 = 12;

/// The error type of `bcrypt::verify` and `bcrypt::hash`, carried through opaquely.
#[verifier::external_type_specification]
#[verifier::external_body]
pub struct ExBcryptError(bcrypt::BcryptError);

/// Whether `password` matches the bcrypt hash `hash`; `None` when the hash
/// cannot be read.
pub uninterp spec fn bcrypt_verdict(password: Seq<char>, hash: Seq<char>) -> Option<bool>;

/// Relies on `bcrypt::verify`: it parses the hash, hashes the password with
/// the stored salt and cost, and compares; the answer depends on the two
/// strings alone.
#[verifier::external_body]
fn bcrypt_verify(password: &str, hash: &str) -> (r: Result<bool, bcrypt::BcryptError>)
    ensures
        r is Ok <==> bcrypt_verdict(password@, hash@) is Some,
        r is Ok ==> bcrypt_verdict(password@, hash@) == Some(r->Ok_0),
{
    bcrypt::verify(password, hash)
}

/// Relies on `bcrypt::hash`: a hash of the password under a random salt,
/// written as `$2b$<cost>$<salt><hash>`, which `bcrypt::verify` splits and
/// recomputes with the same salt and cost, so it verifies the password.
#[verifier::external_body]
fn bcrypt_hash(password: &str, cost: u32) -> (r: Result<String, bcrypt::BcryptError>)
    ensures
        r is Ok ==> bcrypt_verdict(password@, r->Ok_0@) == Some(true),
{
    bcrypt::hash(password, cost)
}

/// A salted bcrypt hash of `password`, or `None` when hashing failed.
pub fn hash_password(password: &str) -> (r: Option<String>)
    ensures
        r is Some ==> bcrypt_verdict(password@, r->0@) == Some(true),
{
    match bcrypt_hash(password, PASSWORD_COST) {
        Ok(h) => Some(h),
        Err(_) => None,
    }
}

/// The outcome of a login attempt on the account found (if any), where
/// `verdict` is what checking the password against its hash gave.
pub open spec fn login_outcome(user: Option<User>, verdict: Option<bool>) -> Result<(), LoginError> {
    match user {
        None => Err(LoginError::InvalidCredentials),
        Some(u) => if !u.is_active {
            Err(LoginError::AccountDisabled)
        } else {
            match verdict {
                None => Err(LoginError::VerifyFailed),
                Some(false) => Err(LoginError::InvalidCredentials),
                Some(true) => Ok(()),
            }
        },
    }
}

/// The outcome of a login attempt, given the account found under the
/// username (if any) and the verdict of the password check on it.
pub fn login_decision(user: Option<&User>, verdict: Option<bool>) -> (r: Result<(), LoginError>)
    ensures
        r == login_outcome(
            match user {
                Some(u) => Some(*u),
                None => None,
            },
            verdict,
        ),
{
    match user {
        None => Err(LoginError::InvalidCredentials),
        Some(u) => if !u.is_active {
            Err(LoginError::AccountDisabled)
        } else {
            match verdict {
                None => Err(LoginError::VerifyFailed),
                Some(false) => Err(LoginError::InvalidCredentials),
                Some(true) => Ok(()),
            }
        },
    }
}

/// Checks a login: the account must exist, be active, and the password must
/// match its hash. The password is only checked for an active account.
pub fn login(user: Option<&User>, password: &str) -> (r: Result<(), LoginError>)
    ensures
        r == login_outcome(
            match user {
                Some(u) => Some(*u),
                None => None,
            },
            match user {
                Some(u) => bcrypt_verdict(password@, u.password_hash@),
                None => None,
            },
        ),
{
    match user {
        None => login_decision(None, None),
        Some(u) => {
            if !u.is_active {
                return login_decision(user, None);
            }
            let verdict = match bcrypt_verify(password, u.password_hash.as_str()) {
                Ok(ok) => Some(ok),
                Err(_) => None,
            };
            login_decision(user, verdict)
        },
    }
}

/// Whether an already lowercased setting reads "true".
pub fn is_true_setting(lowered: &str) -> (r: bool)
    ensures
        r == (lowered@ == "true"@),
{
    same_text(lowered, "true")
}

/// Whether the public signup setting enables signup: it must read "true" in
/// any letter case; an absent setting disables signup.
pub fn signup_allowed(setting: Option<&str>) -> (r: bool)
    ensures
        r == (setting is Some && lowercase_of(setting->0@) == "true"@),
{
    match setting {
        Some(s) => {
            let lowered = to_lowercase(s);
            is_true_setting(lowered.as_str())
        },
        None => false,
    }
}

/// A new account from a creation or signup request. `username_taken` says
/// whether an account with that username exists.
pub fn new_account(
    username: String,
    email: Option<String>,
    full_name: Option<String>,
    password: &str,
    username_taken: bool,
    now: i64,
) -> (r: Result<User, AccountError>)
    ensures
        username_taken ==> r == Err::<User, AccountError>(AccountError::UsernameTaken),
        !username_taken ==> (r is Ok || r == Err::<User, AccountError>(AccountError::HashFailed)),
        r is Ok ==> exists|h: Seq<char>| #[trigger] r->Ok_0.made_as(username@, email, full_name, h, now),
        r is Ok ==> bcrypt_verdict(password@, r->Ok_0.password_hash@) == Some(true),
{
    if username_taken {
        return Err(AccountError::UsernameTaken);
    }
    match hash_password(password) {
        Some(h) => {
            let ghost hv = h@;
            let u = User::new_at(username, email, full_name, h, now);
            let r = Ok(u);
            assert(r->Ok_0.made_as(username@, email, full_name, hv, now));
            r
        },
        None => Err(AccountError::HashFailed),
    }
}

/// The account an administrator creates at instant `now`; `username_taken`
/// says whether the username is in use.
pub fn create_user(req: CreateUserRequest, username_taken: bool, now: i64) -> (r: Result<User, AccountError>)
    ensures
        username_taken ==> r == Err::<User, AccountError>(AccountError::UsernameTaken),
        !username_taken ==> (r is Ok || r == Err::<User, AccountError>(AccountError::HashFailed)),
        r is Ok ==> exists|h: Seq<char>|
            #[trigger] r->Ok_0.made_as(req.username@, req.email, req.full_name, h, now),
        r is Ok ==> bcrypt_verdict(req.password@, r->Ok_0.password_hash@) == Some(true),
{
    new_account(req.username, req.email, req.full_name, req.password.as_str(), username_taken, now)
}

/// The account a visitor opens at instant `now`, when the public signup
/// `setting` enables it; `username_taken` says whether the username is in use.
pub fn signup(req: SignupRequest, setting: Option<&str>, username_taken: bool, now: i64) -> (r: Result<
    User,
    AccountError,
>)
    ensures
        !(setting is Some && lowercase_of(setting->0@) == "true"@) ==> r == Err::<User, AccountError>(
            AccountError::SignupDisabled,
        ),
        (setting is Some && lowercase_of(setting->0@) == "true"@) ==> {
            &&& username_taken ==> r == Err::<User, AccountError>(AccountError::UsernameTaken)
            &&& !username_taken ==> (r is Ok || r == Err::<User, AccountError>(AccountError::HashFailed))
        },
        r is Ok ==> exists|h: Seq<char>|
            #[trigger] r->Ok_0.made_as(req.username@, req.email, req.full_name, h, now),
        r is Ok ==> bcrypt_verdict(req.password@, r->Ok_0.password_hash@) == Some(true),
{
    if !signup_allowed(setting) {
        return Err(AccountError::SignupDisabled);
    }
    new_account(req.username, req.email, req.full_name, req.password.as_str(), username_taken, now)
}

/// Whether `c` is a hexadecimal digit, in either case.
pub open spec fn is_hex_digit(c: char) -> bool {
    ('0' <= c && c <= '9') || ('a' <= c && c <= 'f') || ('A' <= c && c <= 'F')
}

/// Whether `id` is the hex form of a 12-byte document id.
pub open spec fn is_object_id(id: Seq<char>) -> bool {
    id.len() == 24 && forall|i: int| 0 <= i < 24 ==> is_hex_digit(#[trigger] id[i])
}

/// Whether `id` is the hex form of a 12-byte document id; other ids are
/// refused as malformed before any lookup.
pub fn valid_user_id(id: &str) -> (r: bool)
    ensures
        r == is_object_id(id@),
{
    let n = id.unicode_len();
    if n != 24 {
        return false;
    }
    let mut i: usize = 0;
    while i < 24
        invariant
            id@.len() == 24,
            i <= 24,
            forall|j: int| 0 <= j < i ==> is_hex_digit(#[trigger] id@[j]),
        decreases 24 - i,
    {
        let c = id.get_char(i);
        if !(('0' <= c && c <= '9') || ('a' <= c && c <= 'f') || ('A' <= c && c <= 'F')) {
            return false;
        }
        i = i + 1;
    }
    true
}

/// The first account, made only while the store holds none: an active
/// superuser with the given credentials.
pub fn create_superuser(user_count: u64, username: String, password: &str, now: i64) -> (r: Result<
    User,
    AccountError,
>)
    ensures
        user_count > 0 ==> r == Err::<User, AccountError>(AccountError::AlreadyInitialized),
        user_count == 0 ==> (r is Ok || r == Err::<User, AccountError>(AccountError::HashFailed)),
        r is Ok ==> {
            let u = r->Ok_0;
            &&& u.username@ == username@
            &&& u.email is Some && u.email->0@ == "admin@example.com"@
            &&& u.full_name is Some && u.full_name->0@ == "Super User"@
            &&& u.roles@ == seq![Role::SuperUser]
            &&& u.is_active
            &&& u.created_at == now
            &&& u.updated_at == now
            &&& u.last_login is None
            &&& bcrypt_verdict(password@, u.password_hash@) == Some(true)
        },
{
    if user_count > 0 {
        return Err(AccountError::AlreadyInitialized);
    }
    match hash_password(password) {
        Some(h) => {
            let email = "admin@example.com".to_owned();
            let full_name = "Super User".to_owned();
            let mut u = User::new_at(username, Some(email), Some(full_name), h, now);
            u.roles.push(Role::SuperUser);
            assert(u.roles@ =~= seq![Role::SuperUser]);
            Ok(u)
        },
        None => Err(AccountError::HashFailed),
    }
}

/// The value a partial edit leaves in a field: the new one when given.
pub open spec fn edited<T>(new: Option<T>, old: T) -> T {
    match new {
        Some(v) => v,
        None => old,
    }
}

/// Applies a partial edit at instant `now`. A new password is stored as a
/// fresh hash; when hashing fails the account is left unchanged.
pub fn edit_user(user: &mut User, req: EditUserRequest, now: i64) -> (r: Result<(), AccountError>)
    ensures
        r is Err ==> r == Err::<(), AccountError>(AccountError::HashFailed) && *final(user) == *old(
            user,
        ),
        req.password is None ==> r is Ok,
        r is Ok ==> {
            &&& final(user).id == old(user).id
            &&& final(user).username == edited(req.username, old(user).username)
            &&& final(user).email == old(user).email
            &&& final(user).full_name == (match req.full_name {
                Some(n) => Some(n),
                None => old(user).full_name,
            })
            &&& req.password is None ==> final(user).password_hash == old(user).password_hash
            &&& req.password is Some ==> bcrypt_verdict(
                req.password->0@,
                final(user).password_hash@,
            ) == Some(true)
            &&& final(user).roles == edited(req.roles, old(user).roles)
            &&& final(user).created_at == old(user).created_at
            &&& final(user).updated_at == now
            &&& final(user).last_login == old(user).last_login
            &&& final(user).is_active == edited(req.is_active, old(user).is_active)
        },
{
    let new_hash = match &req.password {
        Some(p) => match hash_password(p.as_str()) {
            Some(h) => Some(h),
            None => {
                return Err(AccountError::HashFailed);
            },
        },
        None => None,
    };
    let EditUserRequest { username, full_name, password: _, is_active, roles } = req;
    if let Some(n) = username {
        user.username = n;
    }
    if let Some(n) = full_name {
        user.full_name = Some(n);
    }
    if let Some(h) = new_hash {
        user.password_hash = h;
    }
    if let Some(a) = is_active {
        user.is_active = a;
    }
    if let Some(rs) = roles {
        user.roles = rs;
    }
    user.updated_at = now;
    Ok(())
}

} // verus!
