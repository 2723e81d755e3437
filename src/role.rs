use vstd::prelude::*;

verus! {

/// A named permission; `SuperUser` holds every permission.
#[derive(Debug, Clone, Copy, PartialEq, Eq, Structural)]
pub enum Role {
    UrlCreator,
    UrlViewer,
    UrlManager,
    QrCreator,
    QrViewer,
    QrManager,
    AnalyticsViewer,
    AnalyticsManager,
    UserViewer,
    UserManager,
    SystemAdmin,
    SuperUser,
}

/// The human-readable name of a role.
pub open spec fn role_label(r: Role) -> Seq<char> {
    match r {
        Role::UrlCreator => "URL Creator"@,
        Role::UrlViewer => "URL Viewer"@,
        Role::UrlManager => "URL Manager"@,
        Role::QrCreator => "QR Creator"@,
        Role::QrViewer => "QR Viewer"@,
        Role::QrManager => "QR Manager"@,
        Role::AnalyticsViewer => "Analytics Viewer"@,
        Role::AnalyticsManager => "Analytics Manager"@,
        Role::UserViewer => "User Viewer"@,
        Role::UserManager => "User Manager"@,
        Role::SystemAdmin => "System Administrator"@,
        Role::SuperUser => "Super User"@,
    }
}

/// Whether a caller holding `held` passes a gate that asks for any of `required`.
pub open spec fn satisfies(held: Seq<Role>, required: Seq<Role>) -> bool {
    held.contains(Role::SuperUser) || exists|r: Role| held.contains(r) && required.contains(r)
}

impl Role {
    /// The human-readable name of the role.
    pub fn label(&self) -> (r: String)
        ensures
            r@ == role_label(*self),
    {
        let s = match self {
            Role::UrlCreator => "URL Creator",
            Role::UrlViewer => "URL Viewer",
            Role::UrlManager => "URL Manager",
            Role::QrCreator => "QR Creator",
            Role::QrViewer => "QR Viewer",
            Role::QrManager => "QR Manager",
            Role::AnalyticsViewer => "Analytics Viewer",
            Role::AnalyticsManager => "Analytics Manager",
            Role::UserViewer => "User Viewer",
            Role::UserManager => "User Manager",
            Role::SystemAdmin => "System Administrator",
            Role::SuperUser => "Super User",
        };
        s.to_owned()
    }
}

/// Whether a role list contains `role`.
pub fn holds_role(held: &Vec<Role>, role: Role) -> (r: bool)
    ensures
        r == held@.contains(role),
{
    let mut i: usize = 0;
    while i < held.len()
        invariant
            i <= held@.len(),
            forall|j: int| 0 <= j < i ==> held@[j] != role,
        decreases held@.len() - i,
    {
        if held[i] == role {
            return true;
        }
        i = i + 1;
    }
    false
}

/// The role gate: a caller passes when it is a super user or holds at least
/// one of the required roles.
pub fn has_required_role(held: &Vec<Role>, required: &Vec<Role>) -> (r: bool)
    ensures
        r == satisfies(held@, required@),
{
    if holds_role(held, Role::SuperUser) {
        return true;
    }
    let mut i: usize = 0;
    while i < required.len()
        invariant
            i <= required@.len(),
            !held@.contains(Role::SuperUser),
            forall|j: int| 0 <= j < i ==> !held@.contains(#[trigger] required@[j]),
        decreases required@.len() - i,
    {
        if holds_role(held, required[i]) {
            assert(held@.contains(required@[i as int]) && required@.contains(required@[i as int]));
            return true;
        }
        i = i + 1;
    }
    assert forall|r: Role| !(held@.contains(r) && required@.contains(r)) by {
        if held@.contains(r) && required@.contains(r) {
            let k = choose|k: int| 0 <= k < required@.len() && required@[k] == r;
            assert(!held@.contains(required@[k]));
        }
    }
    false
}

} // verus!
