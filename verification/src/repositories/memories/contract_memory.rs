//! The stable map of contracts, keyed by the bits of their ids.

use super::memory_manager::{MemoryManager, CONTRACTS_MEMORY_ID};
use crate::repositories::types::contract::{Contract, ContractSignatories, ContractView};
use crate::repositories::types::identity::{Identity, MAX_IDENTITY_LENGTH};
use candid::Principal;
use ic_stable_structures::memory_manager::{MemoryId, VirtualMemory};
use ic_stable_structures::{DefaultMemoryImpl, StableBTreeMap};
use vstd::prelude::*;

verus! {

/// The stable map of contracts: an `ic_stable_structures::StableBTreeMap`
/// from the bits of an id to the contract, which is stored as nested tuples
/// of its fields: each party with its flag, then the time of creation, the
/// payment flag and the text. Its region is taken to hold nothing but what
/// the functions of this module wrote.
#[verifier::external_body]
pub struct ContractMemory {
    map: StableBTreeMap<
        u128,
        ((Principal, bool), (Principal, bool), (u64, bool, String)),
        VirtualMemory<DefaultMemoryImpl>,
    >,
}

/// What the map holds: for each key, the contract stored under it.
pub uninterp spec fn contract_entries(store: ContractMemory) -> Map<u128, ContractView>;

/// Opens the map of contracts in its region of the stable memory, by
/// `StableBTreeMap::init`: the map that the region holds is loaded, and an
/// empty one is made where it holds none. Nothing is promised of the entries.
/// It panics where the region holds a map of a version that the outside
/// crate does not know.
#[verifier::external_body]
pub fn init_contracts(manager: &MemoryManager) -> ContractMemory {
    ContractMemory {
        map: StableBTreeMap::init(manager.inner.get(MemoryId::new(CONTRACTS_MEMORY_ID))),
    }
}

/// `StableBTreeMap::get`: the contract stored under the key, if it is one.
#[verifier::external_body]
pub(crate) fn contract_store_get(store: &ContractMemory, id: u128) -> (contract: Option<Contract>)
    ensures
        match contract {
            Some(c) => contract_entries(*store).contains_key(id) && c@ == contract_entries(
                *store,
            )[id],
            None => !contract_entries(*store).contains_key(id),
        },
{
    match store.map.get(&id) {
        Some((buyer, seller, (created_at, issued_payment, contract_json))) => Some(
            Contract {
                signatories: ContractSignatories {
                    buyer: (Identity::from_slice(buyer.0.as_slice()).unwrap(), buyer.1),
                    seller: (Identity::from_slice(seller.0.as_slice()).unwrap(), seller.1),
                },
                contract_json,
                created_at,
                issued_payment,
            },
        ),
        None => None,
    }
}

/// `StableBTreeMap::insert`: afterwards the contract is stored under the key;
/// the other entries stay.
#[verifier::external_body]
pub(crate) fn contract_store_insert(store: &mut ContractMemory, id: u128, contract: &Contract)
    requires
        contract@.buyer.len() <= MAX_IDENTITY_LENGTH,
        contract@.seller.len() <= MAX_IDENTITY_LENGTH,
    ensures
        contract_entries(*final(store)) == contract_entries(*old(store)).insert(id, contract@),
{
    let parties = &contract.signatories;
    let buyer = (Principal::from_slice(parties.buyer.0.as_slice()), parties.buyer.1);
    let seller = (Principal::from_slice(parties.seller.0.as_slice()), parties.seller.1);
    let rest = (contract.created_at, contract.issued_payment, contract.contract_json.clone());
    store.map.insert(id, (buyer, seller, rest));
}

/// The key of `StableBTreeMap::last_key_value`: the greatest key of the map,
/// and none where the map is empty.
#[verifier::external_body]
pub(crate) fn contract_store_last_key(store: &ContractMemory) -> (last: Option<u128>)
    ensures
        match last {
            Some(greatest) => contract_entries(*store).contains_key(greatest) && forall|id: u128|
                contract_entries(*store).contains_key(id) ==> id <= greatest,
            None => forall|id: u128| !contract_entries(*store).contains_key(id),
        },
{
    match store.map.last_key_value() {
        Some((greatest, _)) => Some(greatest),
        None => None,
    }
}

} // verus!
