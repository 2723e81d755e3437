use vstd::prelude::*;

use crate::text::same_text;

verus! {

/// The ownership gate: the path parameter `param_name` must name the caller.
pub struct ResourceOwnership {
    /// Name of the path parameter that holds the owner's user id.
    pub param_name: String,
}

/// The ownership gate wrapped around a service.
pub struct ResourceOwnershipMiddleware<S> {
    service: S,
    param_name: String,
}

/// Why the ownership gate turns a request away.
#[derive(Debug, Clone, Copy, PartialEq, Eq, Structural)]
pub enum OwnershipFailure {
    /// The request carries no verified claims.
    NotAuthenticated,
    /// The resource belongs to someone else.
    NotOwner,
}

/// The ownership gate's answer for a caller (`None`: no claims) and the
/// owner named in the path (`None`: the route names none).
pub open spec fn ownership_outcome(caller: Option<Seq<char>>, owner: Option<Seq<char>>) -> Result<
    (),
    OwnershipFailure,
> {
    match caller {
        None => Err(OwnershipFailure::NotAuthenticated),
        Some(c) => match owner {
            None => Ok(()),
            Some(o) => if c == o {
                Ok(())
            } else {
                Err(OwnershipFailure::NotOwner)
            },
        },
    }
}

/// The view of an optional string.
pub open spec fn opt_view(s: Option<&str>) -> Option<Seq<char>> {
    match s {
        Some(t) => Some(t@),
        None => None,
    }
}

impl ResourceOwnership {
    /// Wraps `service` in the ownership gate.
    pub fn new_transform<S>(&self, service: S) -> (r: ResourceOwnershipMiddleware<S>)
        ensures
            r.service() == service,
            r.param_name()@ == self.param_name@,
    {
        ResourceOwnershipMiddleware { service, param_name: self.param_name.clone() }
    }
}

impl<S> ResourceOwnershipMiddleware<S> {
    pub closed spec fn service(&self) -> S {
        self.service
    }

    pub closed spec fn param_name(&self) -> String {
        self.param_name
    }

    /// The wrapped service.
    pub fn inner(&self) -> (r: &S)
        ensures
            *r == self.service(),
    {
        &self.service
    }

    /// The name of the path parameter that holds the owner's id.
    pub fn owner_param(&self) -> (r: &str)
        ensures
            r@ == self.param_name()@,
    {
        self.param_name.as_str()
    }

    /// Whether the caller `caller` may reach the resource owned by `owner`.
    /// A route without the owner parameter is a collection and is let through.
    pub fn gate(&self, caller: Option<&str>, owner: Option<&str>) -> (r: Result<(), OwnershipFailure>)
        ensures
            r == ownership_outcome(opt_view(caller), opt_view(owner)),
    {
        match caller {
            None => Err(OwnershipFailure::NotAuthenticated),
            Some(c) => match owner {
                None => Ok(()),
                Some(o) => if same_text(c, o) {
                    Ok(())
                } else {
                    Err(OwnershipFailure::NotOwner)
                },
            },
        }
    }
}

} // verus!
