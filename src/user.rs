use vstd::prelude::*;

use crate::clock::{now_millis, MAX_TIMESTAMP_MILLIS};
use crate::role::Role;

verus! {

/// An account. The password is only ever held as a bcrypt hash.
pub struct User {
    /// Hex form of the store's document id, once stored.
    pub id: Option<String>,
    pub username: String,
    pub email: Option<String>,
    pub full_name: Option<String>,
    pub password_hash: String,
    pub roles: Vec<Role>,
    /// Times in milliseconds since the Unix epoch.
    pub created_at: i64,
    pub updated_at: i64,
    pub last_login: Option<i64>,
    pub is_active: bool,
}

impl User {
    /// What an account freshly made at `now` holds.
    pub open spec fn made_as(
        &self,
        username: Seq<char>,
        email: Option<String>,
        full_name: Option<String>,
        password_hash: Seq<char>,
        now: i64,
    ) -> bool {
        &&& self.id is None
        &&& self.username@ == username
        &&& self.email == email
        &&& self.full_name == full_name
        &&& self.password_hash@ == password_hash
        &&& self.roles@.len() == 0
        &&& self.created_at == now
        &&& self.updated_at == now
        &&& self.last_login is None
        &&& self.is_active
    }

    /// A new active account without roles, made at instant `now`.
    pub fn new_at(
        username: String,
        email: Option<String>,
        full_name: Option<String>,
        password_hash: String,
        now: i64,
    ) -> (r: User)
        ensures
            r.made_as(username@, email, full_name, password_hash@, now),
    {
        User {
            id: None,
            username,
            email,
            full_name,
            password_hash,
            roles: Vec::new(),
            created_at: now,
            updated_at: now,
            last_login: None,
            is_active: true,
        }
    }

    /// A new active account without roles, made now.
    pub fn new(
        username: String,
        email: Option<String>,
        full_name: Option<String>,
        password_hash: String,
    ) -> (r: User)
        ensures
            -MAX_TIMESTAMP_MILLIS <= r.created_at <= MAX_TIMESTAMP_MILLIS,
            r.made_as(username@, email, full_name, password_hash@, r.created_at),
    {
        let now = now_millis();
        User::new_at(username, email, full_name, password_hash, now)
    }

    /// Whether two accounts agree on everything but the last login time.
    pub open spec fn same_but_login(&self, other: &User) -> bool {
        &&& self.id == other.id
        &&& self.username == other.username
        &&& self.email == other.email
        &&& self.full_name == other.full_name
        &&& self.password_hash == other.password_hash
        &&& self.roles == other.roles
        &&& self.created_at == other.created_at
        &&& self.updated_at == other.updated_at
        &&& self.is_active == other.is_active
    }

    /// Records a login at instant `now`.
    pub fn record_login_at(&mut self, now: i64)
        ensures
            final(self).last_login == Some(now),
            final(self).same_but_login(old(self)),
    {
        self.last_login = Some(now);
    }

    /// Records a login now.
    pub fn update_last_login(&mut self)
        ensures
            final(self).last_login is Some,
            final(self).same_but_login(old(self)),
    {
        let now = now_millis();
        self.record_login_at(now);
    }
}

/// The hex id an account is shown under: its id, or empty before it is stored.
pub open spec fn shown_id(id: Option<String>) -> Seq<char> {
    match id {
        Some(i) => i@,
        None => Seq::empty(),
    }
}

/// An account as shown to clients: without its password hash.
pub struct UserResponse {
    pub id: String,
    pub username: String,
    pub email: Option<String>,
    pub full_name: Option<String>,
    pub created_at: i64,
    pub last_login: Option<i64>,
    pub is_active: bool,
}

impl UserResponse {
    /// The client view of an account.
    pub fn from_user(user: User) -> (r: UserResponse)
        ensures
            r.id@ == shown_id(user.id),
            r.username == user.username,
            r.email == user.email,
            r.full_name == user.full_name,
            r.created_at == user.created_at,
            r.last_login == user.last_login,
            r.is_active == user.is_active,
    {
        let id = match user.id {
            Some(i) => i,
            None => String::new(),
        };
        UserResponse {
            id,
            username: user.username,
            email: user.email,
            full_name: user.full_name,
            created_at: user.created_at,
            last_login: user.last_login,
            is_active: user.is_active,
        }
    }
}

} // verus!
