use vstd::prelude::*;

verus! {

/// A bearer access token as presented by a caller.
pub struct AccessToken(pub String);

/// What a user is allowed to do.
#[derive(Clone, Copy, Debug, PartialEq, Eq, Structural)]
pub enum Role {
    Admin,
    User,
}

/// The user a request's token resolved to: the fields the handlers read.
pub struct User {
    pub id: u128,
    pub role: Role,
}

/// The outcome of request authentication, handed to each handler.
pub struct AuthrizedUser {
    pub access_token: AccessToken,
    pub user: User,
}

impl AuthrizedUser {
    /// The authenticated user's id.
    pub fn id(&self) -> (r: u128)
        ensures
            r == self.user.id,
    {
        self.user.id
    }

    /// Whether the authenticated user holds the administrator role.
    pub fn is_admin(&self) -> (r: bool)
        ensures
            r == (self.user.role == Role::Admin),
    {
        self.user.role == Role::Admin
    }
}

} // verus!
