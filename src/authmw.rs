use vstd::prelude::*;
use vstd::string::StrSliceExecFns;

use crate::text::{is_prefix, starts_with};

verus! {

/// The token gate placed in front of protected routes.
pub struct JwtAuth;

/// The token gate wrapped around a service.
pub struct JwtAuthMiddleware<S> {
    service: S,
}

impl JwtAuth {
    /// Wraps `service` in the token gate.
    pub fn new_transform<S>(&self, service: S) -> (r: JwtAuthMiddleware<S>)
        ensures
            r.service() == service,
    {
        JwtAuthMiddleware { service }
    }
}

/// What the token gate sees of the `Authorization` field.
pub enum AuthField {
    Missing,
    /// Present, but not visible ASCII text.
    Unreadable,
    Text(String),
}

/// Why a request is turned away as unauthenticated.
#[derive(Debug, Clone, Copy, PartialEq, Eq, Structural)]
pub enum AuthFailure {
    NoHeader,
    InvalidHeader,
    InvalidFormat,
    InvalidToken,
}

/// What the token gate does with a request.
pub enum AuthGate {
    /// A public path: pass it on without a token.
    Public,
    /// Validate this bearer token, and pass the request on with its claims.
    Validate(String),
    /// Turn the request away.
    Reject(AuthFailure),
}

/// Paths served without a token: login, signup and first-account setup, the
/// public redirect and the health check.
pub open spec fn is_public_path(path: Seq<char>) -> bool {
    is_prefix("/api/auth/login"@, path) || is_prefix("/api/auth/signup"@, path) || is_prefix(
        "/api/auth/init"@,
        path,
    ) || is_prefix("/r/"@, path) || is_prefix("/api/health/check"@, path)
}

/// The scheme word that opens a bearer `Authorization` header.
pub open spec fn bearer_prefix() -> Seq<char> {
    "Bearer "@
}

impl<S> JwtAuthMiddleware<S> {
    pub closed spec fn service(&self) -> S {
        self.service
    }

    /// The wrapped service.
    pub fn inner(&self) -> (r: &S)
        ensures
            *r == self.service(),
    {
        &self.service
    }

    /// Whether `path` is served without a token.
    pub fn is_public(path: &str) -> (r: bool)
        ensures
            r == is_public_path(path@),
    {
        starts_with(path, "/api/auth/login") || starts_with(path, "/api/auth/signup")
            || starts_with(path, "/api/auth/init") || starts_with(path, "/r/") || starts_with(
            path,
            "/api/health/check",
        )
    }

    /// The token gate's answer for `path` and what was found in `header`.
    pub fn gate(&self, path: &str, header: &AuthField) -> (r: AuthGate)
        ensures
            is_public_path(path@) ==> r is Public,
            !is_public_path(path@) ==> match header {
                AuthField::Missing => r == AuthGate::Reject(AuthFailure::NoHeader),
                AuthField::Unreadable => r == AuthGate::Reject(AuthFailure::InvalidHeader),
                AuthField::Text(h) => if is_prefix(bearer_prefix(), h@) {
                    r is Validate && r->Validate_0@ == h@.subrange(7, h@.len() as int)
                } else {
                    r == AuthGate::Reject(AuthFailure::InvalidFormat)
                },
            },
    {
        if Self::is_public(path) {
            return AuthGate::Public;
        }
        match header {
            AuthField::Missing => AuthGate::Reject(AuthFailure::NoHeader),
            AuthField::Unreadable => AuthGate::Reject(AuthFailure::InvalidHeader),
            AuthField::Text(h) => {
                if !starts_with(h.as_str(), "Bearer ") {
                    return AuthGate::Reject(AuthFailure::InvalidFormat);
                }
                proof {
                    reveal_strlit("Bearer ");
                }
                let n = h.as_str().unicode_len();
                let token = h.as_str().substring_char(7, n);
                AuthGate::Validate(token.to_owned())
            },
        }
    }
}

} // verus!
