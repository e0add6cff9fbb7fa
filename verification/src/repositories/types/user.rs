//! Users and the roles they hold.

use vstd::prelude::*;

verus! {

/// What a registered identity may do.
#[derive(Clone, Copy, Debug, PartialEq, Eq, Structural)]
pub enum Role {
    /// May change the user directory.
    Admin,
    /// May ask for payments to be issued.
    FrontendServer,
}

/// The record kept for a registered identity.
#[derive(Clone, Copy, Debug, PartialEq, Eq, Structural)]
pub struct User {
    pub role: Role,
}

/// The byte that stands for a role in the user store.
pub open spec fn role_tag(role: Role) -> u8 {
    match role {
        Role::Admin => 0,
        Role::FrontendServer => 1,
    }
}

/// The role that a stored byte stands for, if any.
pub open spec fn role_of_tag(tag: u8) -> Option<Role> {
    if tag == 0 {
        Some(Role::Admin)
    } else if tag == 1 {
        Some(Role::FrontendServer)
    } else {
        None
    }
}

impl Role {
    /// The byte that stands for this role in the user store.
    pub fn to_tag(self) -> (tag: u8)
        ensures
            tag == role_tag(self),
    {
        match self {
            Role::Admin => 0,
            Role::FrontendServer => 1,
        }
    }

    /// The role that a stored byte stands for, if any.
    pub fn from_tag(tag: u8) -> (role: Option<Role>)
        ensures
            role == role_of_tag(tag),
    {
        if tag == 0 {
            Some(Role::Admin)
        } else if tag == 1 {
            Some(Role::FrontendServer)
        } else {
            None
        }
    }
}

impl User {
    pub fn new(role: Role) -> (user: User)
        ensures
            user.role == role,
    {
        User { role }
    }

    pub fn is_admin(&self) -> (r: bool)
        ensures
            r == (self.role == Role::Admin),
    {
        match self.role {
            Role::Admin => true,
            Role::FrontendServer => false,
        }
    }

    pub fn is_frontend_server(&self) -> (r: bool)
        ensures
            r == (self.role == Role::FrontendServer),
    {
        match self.role {
            Role::Admin => false,
            Role::FrontendServer => true,
        }
    }
}

} // verus!
