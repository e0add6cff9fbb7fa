//! The stable map of users, keyed by principal.

use super::memory_manager::{MemoryManager, USERS_MEMORY_ID};
use crate::repositories::types::identity::{Identity, MAX_IDENTITY_LENGTH};
use candid::Principal;
use ic_stable_structures::memory_manager::{MemoryId, VirtualMemory};
use ic_stable_structures::{DefaultMemoryImpl, StableBTreeMap};
use vstd::prelude::*;

verus! {

/// The stable map of users: an `ic_stable_structures::StableBTreeMap` from a
/// principal to the byte that stands for the user's role. Its region is
/// taken to hold nothing but what the functions of this module wrote.
#[verifier::external_body]
pub struct UserMemory {
    map: StableBTreeMap<Principal, u8, VirtualMemory<DefaultMemoryImpl>>,
}

/// What the map holds: for the bytes of each principal that is a key, the
/// byte stored under it.
pub uninterp spec fn user_entries(store: UserMemory) -> Map<Seq<u8>, u8>;

/// The order of `candid::Principal`, on the bytes of two principals: the
/// shorter comes first, and of two of one length the one with the smaller
/// byte at the first place where they differ.
pub open spec fn principal_before(first: Seq<u8>, second: Seq<u8>) -> bool {
    first.len() < second.len() || (first.len() == second.len() && exists|place: int|
        0 <= place < first.len() && first[place] < second[place] && #[trigger] first.take(place)
            == second.take(place))
}

/// Whether `list` holds each entry of `entries` once and nothing else, in
/// the order of the principals.
pub open spec fn lists_entries(list: Seq<(Identity, u8)>, entries: Map<Seq<u8>, u8>) -> bool {
    &&& forall|i: int|
        0 <= i < list.len() ==> entries.contains_key(#[trigger] list[i].0@) && entries[list[i].0@]
            == list[i].1
    &&& forall|i: int, j: int|
        0 <= i < j < list.len() ==> principal_before(#[trigger] list[i].0@, #[trigger] list[j].0@)
    &&& forall|key: Seq<u8>| #[trigger]
        entries.contains_key(key) ==> exists|i: int| 0 <= i < list.len() && #[trigger] list[i].0@ == key
}

/// Opens the map of users in its region of the stable memory, by
/// `StableBTreeMap::init`: the map that the region holds is loaded, and an
/// empty one is made where it holds none. Nothing is promised of the entries.
/// It panics where the region holds a map of a version that the outside
/// crate does not know.
#[verifier::external_body]
pub fn init_users(manager: &MemoryManager) -> UserMemory {
    UserMemory { map: StableBTreeMap::init(manager.inner.get(MemoryId::new(USERS_MEMORY_ID))) }
}

/// `StableBTreeMap::get`: the byte stored under the principal, if it is a key.
#[verifier::external_body]
pub(crate) fn user_store_get(store: &UserMemory, principal: &Identity) -> (tag: Option<u8>)
    requires
        principal@.len() <= MAX_IDENTITY_LENGTH,
    ensures
        tag == if user_entries(*store).contains_key(principal@) {
            Some(user_entries(*store)[principal@])
        } else {
            None
        },
{
    store.map.get(&Principal::from_slice(principal.as_slice()))
}

/// `StableBTreeMap::insert`: afterwards the principal is a key and `tag` is
/// stored under it; the other entries stay.
#[verifier::external_body]
pub(crate) fn user_store_insert(store: &mut UserMemory, principal: &Identity, tag: u8)
    requires
        principal@.len() <= MAX_IDENTITY_LENGTH,
    ensures
        user_entries(*final(store)) == user_entries(*old(store)).insert(principal@, tag),
{
    store.map.insert(Principal::from_slice(principal.as_slice()), tag);
}

/// `StableBTreeMap::remove`: afterwards the principal is no key; the other
/// entries stay.
#[verifier::external_body]
pub(crate) fn user_store_remove(store: &mut UserMemory, principal: &Identity)
    requires
        principal@.len() <= MAX_IDENTITY_LENGTH,
    ensures
        user_entries(*final(store)) == user_entries(*old(store)).remove(principal@),
{
    store.map.remove(&Principal::from_slice(principal.as_slice()));
}

/// `StableBTreeMap::iter`, collected: each entry of the map once, sorted by
/// key, that is in the order of the principals.
#[verifier::external_body]
pub(crate) fn user_store_entries(store: &UserMemory) -> (list: Vec<(Identity, u8)>)
    ensures
        lists_entries(list@, user_entries(*store)),
{
    store.map.iter().map(|(key, tag)| (Identity::from_slice(key.as_slice()).unwrap(), tag)).collect()
}

} // verus!
