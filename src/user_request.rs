use vstd::prelude::*;

use crate::role::Role;
use crate::user::User;

verus! {

/// An administrator's request to create an account.
pub struct CreateUserRequest {
    pub username: String,
    pub email: Option<String>,
    pub full_name: Option<String>,
    pub password: String,
}

/// A partial edit of an account: only the fields given change.
pub struct EditUserRequest {
    pub username: Option<String>,
    pub full_name: Option<String>,
    pub password: Option<String>,
    pub is_active: Option<bool>,
    /// Replaces the whole role list when given.
    pub roles: Option<Vec<Role>>,
}

/// A stored account as shown to clients, with its edit time.
pub struct UserResponse {
    pub id: String,
    pub username: String,
    pub email: Option<String>,
    pub full_name: Option<String>,
    pub created_at: i64,
    pub updated_at: i64,
    pub last_login: Option<i64>,
    pub is_active: bool,
}

impl UserResponse {
    /// The client view of a stored account.
    pub fn from_user(user: User) -> (r: UserResponse)
        requires
            user.id is Some,
        ensures
            r.id == user.id->0,
            r.username == user.username,
            r.email == user.email,
            r.full_name == user.full_name,
            r.created_at == user.created_at,
            r.updated_at == user.updated_at,
            r.last_login == user.last_login,
            r.is_active == user.is_active,
    {
        let id = match user.id {
            Some(i) => i,
            None => String::new(),
        };
        UserResponse {
            id,
            username: user.username,
            email: user.email,
            full_name: user.full_name,
            created_at: user.created_at,
            updated_at: user.updated_at,
            last_login: user.last_login,
            is_active: user.is_active,
        }
    }
}

/// A visitor's request to open an account, when public signup is enabled.
pub struct SignupRequest {
    pub username: String,
    pub email: Option<String>,
    pub full_name: Option<String>,
    pub password: String,
}

} // verus!
