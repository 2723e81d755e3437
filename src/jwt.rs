use vstd::prelude::*;

verus! {

/// Seconds a session token stays valid: ten days.
pub const TOKEN_LIFETIME_SECS: usize = 864_000;

/// The signed payload of a session token.
pub struct Claims {
    /// The username the token was issued to.
    pub sub: String,
    /// Expiry, in seconds since the Unix epoch.
    pub exp: usize,
    /// Issue time, in seconds since the Unix epoch.
    pub iat: usize,
    pub user_id: String,
}

impl Claims {
    /// The claims of a token issued at `now` (seconds since the Unix epoch),
    /// valid for `TOKEN_LIFETIME_SECS`.
    pub fn issue(username: &str, user_id: &str, now: usize) -> (r: Claims)
        requires
            now + TOKEN_LIFETIME_SECS <= usize::MAX,
        ensures
            r.sub@ == username@,
            r.user_id@ == user_id@,
            r.iat == now,
            r.exp == now + TOKEN_LIFETIME_SECS,
    {
        Claims {
            sub: username.to_owned(),
            exp: now + TOKEN_LIFETIME_SECS,
            iat: now,
            user_id: user_id.to_owned(),
        }
    }
}

} // verus!
