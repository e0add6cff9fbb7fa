//! The guard: what a caller may do, by its identity and its stored role.

use crate::repositories::types::api_error::{failure_of, ApiError, ErrorKind};
use crate::repositories::types::identity::{anonymous_bytes, principal_text, Identity};
use crate::repositories::types::user::Role;
use crate::repositories::user_repository::{Directory, UserRepository};
use vstd::prelude::*;
use vstd::string::StringExecFns;

verus! {

/// Why an anonymous caller is turned away: `Unauthenticated`.
pub open spec fn anonymous_failure(principal: Seq<u8>) -> Option<ErrorKind> {
    if principal == anonymous_bytes() {
        Some(ErrorKind::Unauthenticated)
    } else {
        None
    }
}

/// Why a caller that must hold `role` is turned away: `NotFound` where it is
/// not registered, `PermissionDenied` where it holds another role.
pub open spec fn role_failure(users: Directory, principal: Seq<u8>, role: Role) -> Option<
    ErrorKind,
> {
    if !users.contains_key(principal) {
        Some(ErrorKind::NotFound)
    } else if users[principal].role != role {
        Some(ErrorKind::PermissionDenied)
    } else {
        None
    }
}

/// What an unregistered caller of an admin operation is told.
pub open spec fn admin_not_found_text(principal: Seq<u8>) -> Seq<char> {
    "Principal "@ + principal_text(principal) + " must be admin to call this endpoint"@
}

/// What a caller of an admin operation that is no admin is told.
pub open spec fn admin_denied_text(principal: Seq<u8>) -> Seq<char> {
    "Principal "@ + principal_text(principal) + " must be an admin to call this endpoint"@
}

/// What a caller of a frontend operation that is not the frontend is told.
pub open spec fn frontend_denied_text(principal: Seq<u8>) -> Seq<char> {
    principal_text(principal)
        + " not authorized. Only frontend server principals can call this endpoint."@
}

/// The checks that guard the operations. None of them changes anything.
pub trait AccessControlService {
    /// The directory that the checks read.
    spec fn users(&self) -> Directory;

    /// Fails with `Unauthenticated` for the anonymous identity.
    fn assert_principal_not_anonymous(&self, calling_principal: &Identity) -> (r: Result<
        (),
        ApiError,
    >)
        ensures
            failure_of(r) == anonymous_failure(calling_principal@),
            r matches Err(e) ==> e.message@ == "Anonymous principals are not allowed"@,
    ;

    /// Fails with `NotFound` for an identity that is not registered, and with
    /// `PermissionDenied` for one that is no admin.
    fn assert_principal_is_admin(&self, calling_principal: &Identity) -> (r: Result<(), ApiError>)
        ensures
            failure_of(r) == role_failure(self.users(), calling_principal@, Role::Admin),
            r matches Err(e) ==> e.message@ == if e.kind == ErrorKind::NotFound {
                admin_not_found_text(calling_principal@)
            } else {
                admin_denied_text(calling_principal@)
            },
    ;

    /// Fails with `NotFound` for an identity that is not registered, and with
    /// `PermissionDenied` for one that is not a frontend server.
    fn assert_principal_is_frontend(&self, calling_principal: &Identity) -> (r: Result<
        (),
        ApiError,
    >)
        ensures
            failure_of(r) == role_failure(self.users(), calling_principal@, Role::FrontendServer),
            r matches Err(e) ==> e.message@ == frontend_denied_text(calling_principal@),
    ;
}

/// The guard over a user repository.
pub struct AccessControlServiceImpl<'a, T: UserRepository> {
    user_repository: &'a T,
}

impl<'a, T: UserRepository> AccessControlServiceImpl<'a, T> {
    /// The guard that reads the given repository.
    pub fn new(user_repository: &'a T) -> (service: AccessControlServiceImpl<'a, T>)
        ensures
            service.users() == user_repository.users(),
    {
        AccessControlServiceImpl { user_repository }
    }
}

/// The text `before`, the text form of the identity and the text `after`,
/// in this order.
fn text_around_principal(before: &str, principal: &Identity, after: &str) -> (text: String)
    ensures
        text@ == before@ + principal_text(principal@) + after@,
{
    let mut text = String::from_str(before);
    text.append(principal.to_text().as_str());
    text.append(after);
    text
}

/// What a caller of a frontend operation that is not the frontend is told.
fn frontend_denied_message(principal: &Identity) -> (text: String)
    ensures
        text@ == frontend_denied_text(principal@),
{
    let mut text = principal.to_text();
    text.append(" not authorized. Only frontend server principals can call this endpoint.");
    text
}

impl<'a, T: UserRepository> AccessControlService for AccessControlServiceImpl<'a, T> {
    closed spec fn users(&self) -> Directory {
        self.user_repository.users()
    }

    fn assert_principal_not_anonymous(&self, calling_principal: &Identity) -> (r: Result<
        (),
        ApiError,
    >) {
        if calling_principal.is_anonymous() {
            return Err(ApiError::unauthenticated());
        }
        Ok(())
    }

    fn assert_principal_is_admin(&self, calling_principal: &Identity) -> (r: Result<(), ApiError>) {
        let user = match self.user_repository.get_user_by_principal(calling_principal) {
            Some(user) => user,
            None => {
                let message = text_around_principal(
                    "Principal ",
                    calling_principal,
                    " must be admin to call this endpoint",
                );
                return Err(ApiError::not_found(message.as_str()));
            },
        };
        if !user.is_admin() {
            let message = text_around_principal(
                "Principal ",
                calling_principal,
                " must be an admin to call this endpoint",
            );
            return Err(ApiError::permission_denied(message.as_str()));
        }
        Ok(())
    }

    fn assert_principal_is_frontend(&self, calling_principal: &Identity) -> (r: Result<
        (),
        ApiError,
    >) {
        let user = match self.user_repository.get_user_by_principal(calling_principal) {
            Some(user) => user,
            None => {
                let message = frontend_denied_message(calling_principal);
                return Err(ApiError::not_found(message.as_str()));
            },
        };
        if !user.is_frontend_server() {
            let message = frontend_denied_message(calling_principal);
            return Err(ApiError::permission_denied(message.as_str()));
        }
        Ok(())
    }
}

/// An identity that is not registered fails both role checks with `NotFound`.
pub proof fn law_unregistered_is_not_found(users: Directory, principal: Seq<u8>)
    requires
        !users.contains_key(principal),
    ensures
        role_failure(users, principal, Role::Admin) == Some(ErrorKind::NotFound),
        role_failure(users, principal, Role::FrontendServer) == Some(ErrorKind::NotFound),
{
}

/// A registered identity passes the check for the role it holds and fails
/// the check for the other role with `PermissionDenied`.
pub proof fn law_role_checks_tell_roles_apart(users: Directory, principal: Seq<u8>)
    requires
        users.contains_key(principal),
    ensures
        role_failure(users, principal, users[principal].role) is None,
        forall|role: Role|
            role != users[principal].role ==> #[trigger] role_failure(users, principal, role)
                == Some(ErrorKind::PermissionDenied),
{
}

} // verus!
