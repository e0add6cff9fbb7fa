//! The user directory as the operations see it.

use crate::repositories::types::api_error::{failure_of, ApiError, ErrorKind};
use crate::repositories::types::identity::{principal_text, Identity};
use crate::repositories::types::user::User;
use crate::repositories::user_repository::{
    create_user_effect, create_user_failure, lists_users, remove_user_effect,
    remove_user_failure, update_user_effect, Directory, UserRepository,
};
use vstd::prelude::*;
use vstd::string::StringExecFns;

verus! {

/// What a lookup of an identity that is not registered is told.
pub open spec fn user_not_found_text(principal: Seq<u8>) -> Seq<char> {
    "User with principal "@ + principal_text(principal) + " not found"@
}

/// The directory of users and their roles.
pub trait UserService {
    /// The directory.
    spec fn users(&self) -> Directory;

    /// Succeeds where the identity is registered; fails with `NotFound`
    /// where it is not.
    fn get_user_by_principal(&self, principal: &Identity) -> (r: Result<(), ApiError>)
        ensures
            r is Ok <==> self.users().contains_key(principal@),
            r matches Err(e) ==> e.is(ErrorKind::NotFound, user_not_found_text(principal@)),
    ;

    /// Registers the identity; fails with `Conflict` where it is registered.
    fn create_user(&mut self, principal: Identity, user: User) -> (r: Result<(), ApiError>)
        ensures
            failure_of(r) == create_user_failure(old(self).users(), principal@),
            r matches Err(e) ==> e.message@ == "User already exists"@,
            final(self).users() == create_user_effect(old(self).users(), principal@, user),
    ;

    /// Takes the identity out; fails with `NotFound` where it is not
    /// registered.
    fn remove_user(&mut self, principal: &Identity) -> (r: Result<(), ApiError>)
        ensures
            failure_of(r) == remove_user_failure(old(self).users(), principal@),
            r matches Err(e) ==> e.message@ == "User not found"@,
            final(self).users() == remove_user_effect(old(self).users(), principal@),
    ;

    /// Registers the identity with `user`, whether it was registered or not.
    fn update_user(&mut self, principal: Identity, user: User) -> (r: Result<(), ApiError>)
        ensures
            r is Ok,
            final(self).users() == update_user_effect(old(self).users(), principal@, user),
    ;

    /// Every registered identity with its user, in no stated order.
    fn list_users(&self) -> (list: Vec<(Identity, User)>)
        ensures
            lists_users(list@, self.users()),
    ;
}

/// The user directory over a user repository.
pub struct UserServiceImpl<T: UserRepository> {
    user_repository: T,
}

impl<T: UserRepository> UserServiceImpl<T> {
    /// The service over the given repository.
    pub fn new(user_repository: T) -> (service: UserServiceImpl<T>)
        ensures
            service.users() == user_repository.users(),
    {
        UserServiceImpl { user_repository }
    }

    /// The repository, for the checks that only read it.
    pub fn repository(&self) -> (user_repository: &T)
        ensures
            user_repository.users() == self.users(),
    {
        &self.user_repository
    }
}

impl<T: UserRepository> UserService for UserServiceImpl<T> {
    closed spec fn users(&self) -> Directory {
        self.user_repository.users()
    }

    fn get_user_by_principal(&self, principal: &Identity) -> (r: Result<(), ApiError>) {
        match self.user_repository.get_user_by_principal(principal) {
            Some(_) => Ok(()),
            None => {
                let mut message = String::from_str("User with principal ");
                message.append(principal.to_text().as_str());
                message.append(" not found");
                Err(ApiError::not_found(message.as_str()))
            },
        }
    }

    fn create_user(&mut self, principal: Identity, user: User) -> (r: Result<(), ApiError>) {
        self.user_repository.create_user(principal, user)
    }

    fn remove_user(&mut self, principal: &Identity) -> (r: Result<(), ApiError>) {
        self.user_repository.remove_user(principal)
    }

    fn update_user(&mut self, principal: Identity, user: User) -> (r: Result<(), ApiError>) {
        self.user_repository.update_user(principal, user)
    }

    fn list_users(&self) -> (list: Vec<(Identity, User)>) {
        self.user_repository.list_users()
    }
}

} // verus!
