//! The user directory: which identity holds which role.

use super::memories::user_memory::{
    lists_entries, principal_before, user_entries, user_store_entries, user_store_get,
    user_store_insert, user_store_remove, UserMemory,
};
use super::types::api_error::{failure_of, ApiError, ErrorKind};
use super::types::identity::Identity;
use super::types::user::{role_of_tag, Role, User};
use vstd::prelude::*;

verus! {

/// A directory: the registered identities, each with its user record.
pub type Directory = Map<Seq<u8>, User>;

/// The user registered under `principal`, if there is one.
pub open spec fn lookup_user(users: Directory, principal: Seq<u8>) -> Option<User> {
    if users.contains_key(principal) {
        Some(users[principal])
    } else {
        None
    }
}

/// Why `create_user` fails, if it does: the identity is registered already.
pub open spec fn create_user_failure(users: Directory, principal: Seq<u8>) -> Option<ErrorKind> {
    if users.contains_key(principal) {
        Some(ErrorKind::Conflict)
    } else {
        None
    }
}

/// The directory after `create_user`.
pub open spec fn create_user_effect(users: Directory, principal: Seq<u8>, user: User) -> Directory {
    if users.contains_key(principal) {
        users
    } else {
        users.insert(principal, user)
    }
}

/// Why `remove_user` fails, if it does: the identity is not registered.
pub open spec fn remove_user_failure(users: Directory, principal: Seq<u8>) -> Option<ErrorKind> {
    if users.contains_key(principal) {
        None
    } else {
        Some(ErrorKind::NotFound)
    }
}

/// The directory after `remove_user`.
pub open spec fn remove_user_effect(users: Directory, principal: Seq<u8>) -> Directory {
    users.remove(principal)
}

/// The directory after `update_user`, which never fails: the identity is
/// registered with `user`, whether it was registered before or not.
pub open spec fn update_user_effect(users: Directory, principal: Seq<u8>, user: User) -> Directory {
    users.insert(principal, user)
}

/// Whether `list` holds each registered identity once, with its user, and
/// nothing else.
pub open spec fn lists_users(list: Seq<(Identity, User)>, users: Directory) -> bool {
    &&& forall|i: int|
        0 <= i < list.len() ==> users.contains_key(#[trigger] list[i].0@) && users[list[i].0@]
            == list[i].1
    &&& forall|i: int, j: int|
        0 <= i < j < list.len() ==> #[trigger] list[i].0@ != #[trigger] list[j].0@
    &&& forall|key: Seq<u8>| #[trigger]
        users.contains_key(key) ==> exists|i: int| 0 <= i < list.len() && #[trigger] list[i].0@ == key
}

/// The store of the user directory.
pub trait UserRepository {
    /// The directory that the store holds.
    spec fn users(&self) -> Directory;

    /// The user registered under `principal`, if there is one.
    fn get_user_by_principal(&self, principal: &Identity) -> (user: Option<User>)
        ensures
            user == lookup_user(self.users(), principal@),
    ;

    /// Registers `principal` with `user`, unless it is registered already.
    fn create_user(&mut self, principal: Identity, user: User) -> (r: Result<(), ApiError>)
        ensures
            failure_of(r) == create_user_failure(old(self).users(), principal@),
            r matches Err(e) ==> e.message@ == "User already exists"@,
            final(self).users() == create_user_effect(old(self).users(), principal@, user),
    ;

    /// Takes `principal` out of the directory, if it is registered.
    fn remove_user(&mut self, principal: &Identity) -> (r: Result<(), ApiError>)
        ensures
            failure_of(r) == remove_user_failure(old(self).users(), principal@),
            r matches Err(e) ==> e.message@ == "User not found"@,
            final(self).users() == remove_user_effect(old(self).users(), principal@),
    ;

    /// Registers `principal` with `user`, whether it was registered or not.
    fn update_user(&mut self, principal: Identity, user: User) -> (r: Result<(), ApiError>)
        ensures
            r is Ok,
            final(self).users() == update_user_effect(old(self).users(), principal@, user),
    ;

    /// Every registered identity with its user, in no stated order.
    fn list_users(&self) -> (list: Vec<(Identity, User)>)
        ensures
            lists_users(list@, self.users()),
    ;
}

/// The directory that a map of stored bytes stands for. An entry whose byte
/// stands for no role is not part of it.
pub open spec fn directory_of(entries: Map<Seq<u8>, u8>) -> Directory {
    Map::new(
        |principal: Seq<u8>|
            entries.contains_key(principal) && role_of_tag(entries[principal]) is Some,
        |principal: Seq<u8>| User { role: role_of_tag(entries[principal])->0 },
    )
}

/// The user directory in a stable map. It lists its users in the order of
/// their principals.
pub struct UserRepositoryImpl {
    store: UserMemory,
}

impl UserRepositoryImpl {
    /// The repository over the given map.
    pub fn new(store: UserMemory) -> (repository: UserRepositoryImpl)
        ensures
            repository.users() == directory_of(user_entries(store)),
    {
        UserRepositoryImpl { store }
    }
}

impl UserRepository for UserRepositoryImpl {
    closed spec fn users(&self) -> Directory {
        directory_of(user_entries(self.store))
    }

    fn get_user_by_principal(&self, principal: &Identity) -> (user: Option<User>) {
        proof {
            use_type_invariant(principal);
        }
        match user_store_get(&self.store, principal) {
            Some(tag) => match Role::from_tag(tag) {
                Some(role) => Some(User { role }),
                None => None,
            },
            None => None,
        }
    }

    fn create_user(&mut self, principal: Identity, user: User) -> (r: Result<(), ApiError>) {
        if self.get_user_by_principal(&principal).is_some() {
            return Err(ApiError::conflict("User already exists"));
        }
        proof {
            use_type_invariant(&principal);
        }
        user_store_insert(&mut self.store, &principal, user.role.to_tag());
        assert(self.users() =~= old(self).users().insert(principal@, user));
        Ok(())
    }

    fn remove_user(&mut self, principal: &Identity) -> (r: Result<(), ApiError>) {
        if self.get_user_by_principal(principal).is_none() {
            assert(self.users().remove(principal@) =~= self.users());
            return Err(ApiError::not_found("User not found"));
        }
        proof {
            use_type_invariant(principal);
        }
        user_store_remove(&mut self.store, principal);
        assert(self.users() =~= old(self).users().remove(principal@));
        Ok(())
    }

    fn update_user(&mut self, principal: Identity, user: User) -> (r: Result<(), ApiError>) {
        proof {
            use_type_invariant(&principal);
        }
        user_store_insert(&mut self.store, &principal, user.role.to_tag());
        assert(self.users() =~= old(self).users().insert(principal@, user));
        Ok(())
    }

    fn list_users(&self) -> (list: Vec<(Identity, User)>)
        ensures
            forall|i: int, j: int|
                0 <= i < j < list@.len() ==> principal_before(
                    #[trigger] list@[i].0@,
                    #[trigger] list@[j].0@,
                ),
    {
        let entries = user_store_entries(&self.store);
        let ghost stored = user_entries(self.store);
        let mut list: Vec<(Identity, User)> = Vec::new();
        let ghost mut origin: Seq<int> = Seq::empty();
        let mut i: usize = 0;
        while i < entries.len()
            invariant
                i <= entries@.len(),
                stored == user_entries(self.store),
                lists_entries(entries@, stored),
                origin.len() == list@.len(),
                forall|k: int|
                    0 <= k < list@.len() ==> 0 <= #[trigger] origin[k] < i && list@[k].0@
                        == entries@[origin[k]].0@ && role_of_tag(entries@[origin[k]].1) == Some(
                        list@[k].1.role,
                    ),
                forall|k: int, l: int|
                    0 <= k < l < list@.len() ==> #[trigger] origin[k] < #[trigger] origin[l],
                forall|e: int|
                    0 <= e < i && role_of_tag(#[trigger] entries@[e].1) is Some ==> exists|k: int|
                        0 <= k < list@.len() && #[trigger] origin[k] == e,
            decreases entries@.len() - i,
        {
            let tag = entries[i].1;
            match Role::from_tag(tag) {
                Some(role) => {
                    let ghost before = list@;
                    let ghost origin_before = origin;
                    list.push((entries[i].0.clone(), User { role }));
                    proof {
                        origin = origin.push(i as int);
                        assert forall|e: int|
                            0 <= e < i + 1 && role_of_tag(
                                #[trigger] entries@[e].1,
                            ) is Some implies exists|k: int|
                            0 <= k < list@.len() && #[trigger] origin[k] == e by {
                            if e < i {
                                let k = choose|k: int|
                                    0 <= k < before.len() && #[trigger] origin_before[k] == e;
                                assert(origin[k] == e);
                            } else {
                                assert(origin[before.len() as int] == e);
                            }
                        }
                    }
                },
                None => {},
            }
            i += 1;
        }
        proof {
            let users = self.users();
            assert forall|k: int| 0 <= k < list@.len() implies users.contains_key(
                #[trigger] list@[k].0@,
            ) && users[list@[k].0@] == list@[k].1 by {
                let e = origin[k];
                assert(stored.contains_key(entries@[e].0@));
            }
            assert forall|k: int, l: int| 0 <= k < l < list@.len() implies principal_before(
                #[trigger] list@[k].0@,
                #[trigger] list@[l].0@,
            ) by {
                assert(origin[k] < origin[l]);
                assert(principal_before(entries@[origin[k]].0@, entries@[origin[l]].0@));
            }
            assert forall|k: int, l: int| 0 <= k < l < list@.len() implies #[trigger] list@[k].0@
                != #[trigger] list@[l].0@ by {
                assert(principal_before(list@[k].0@, list@[l].0@));
            }
            assert forall|key: Seq<u8>| #[trigger] users.contains_key(key) implies exists|k: int|
                0 <= k < list@.len() && #[trigger] list@[k].0@ == key by {
                let e = choose|e: int| 0 <= e < entries@.len() && #[trigger] entries@[e].0@ == key;
                assert(role_of_tag(entries@[e].1) is Some);
                let k = choose|k: int| 0 <= k < list@.len() && #[trigger] origin[k] == e;
                assert(list@[k].0@ == key);
            }
        }
        list
    }
}

/// A second `create_user` for the same identity fails with `Conflict`,
/// whatever the first one did.
pub proof fn law_create_user_twice_conflicts(
    users: Directory,
    principal: Seq<u8>,
    first: User,
)
    ensures
        create_user_failure(create_user_effect(users, principal, first), principal) == Some(
            ErrorKind::Conflict,
        ),
{
}

/// `remove_user` fails with `NotFound` for an identity that is not
/// registered and leaves the directory as it was; after a removal the
/// identity is looked up in vain, and a second removal fails with `NotFound`.
pub proof fn law_remove_user(users: Directory, principal: Seq<u8>)
    ensures
        !users.contains_key(principal) ==> remove_user_failure(users, principal) == Some(
            ErrorKind::NotFound,
        ) && remove_user_effect(users, principal) == users,
        lookup_user(remove_user_effect(users, principal), principal) is None,
        remove_user_failure(remove_user_effect(users, principal), principal) == Some(
            ErrorKind::NotFound,
        ),
{
    if !users.contains_key(principal) {
        assert(users.remove(principal) =~= users);
    }
}

/// `update_user` registers the identity with the given user whether it was
/// registered or not, where `create_user` would refuse one that is.
pub proof fn law_update_user_upserts(users: Directory, principal: Seq<u8>, user: User)
    ensures
        lookup_user(update_user_effect(users, principal, user), principal) == Some(user),
        !users.contains_key(principal) ==> update_user_effect(users, principal, user)
            == create_user_effect(users, principal, user),
{
}

} // verus!
