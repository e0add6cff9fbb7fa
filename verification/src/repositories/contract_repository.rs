//! The contract repository: creation, lookup and the two flag updates.

use super::memories::contract_memory::{
    contract_entries, contract_store_get, contract_store_insert, contract_store_last_key,
    ContractMemory,
};
use super::types::contract::{unsigned_contract, Contract, ContractView};
use super::types::identity::Identity;
use super::types::uuid::Uuid;
use vstd::prelude::*;

verus! {

/// The stored contracts, each under the bits of its id.
pub type Contracts = Map<u128, ContractView>;

/// The party that signs.
#[derive(Clone, Copy, Debug, PartialEq, Eq, Structural)]
pub enum Signer {
    Buyer,
    Seller,
}

/// The contract stored under `id`, if there is one.
pub open spec fn lookup_contract(contracts: Contracts, id: u128) -> Option<ContractView> {
    if contracts.contains_key(id) {
        Some(contracts[id])
    } else {
        None
    }
}

/// The contract with the flag of `signer` set. Nothing else changes.
pub open spec fn signed_by(contract: ContractView, signer: Signer) -> ContractView {
    match signer {
        Signer::Buyer => ContractView { buyer_signed: true, ..contract },
        Signer::Seller => ContractView { seller_signed: true, ..contract },
    }
}

/// The contract with its payment flag set to `status`. Nothing else changes.
pub open spec fn with_payment(contract: ContractView, status: bool) -> ContractView {
    ContractView { issued_payment: status, ..contract }
}

/// The contracts after `update_contract_signature`: the flag of `signer` is
/// set in the contract under `id`, and nothing changes where there is none.
pub open spec fn signature_effect(contracts: Contracts, id: u128, signer: Signer) -> Contracts {
    if contracts.contains_key(id) {
        contracts.insert(id, signed_by(contracts[id], signer))
    } else {
        contracts
    }
}

/// The contracts after `update_payment_status`: the payment flag of the
/// contract under `id` is `status`, and nothing changes where there is none.
pub open spec fn payment_effect(contracts: Contracts, id: u128, status: bool) -> Contracts {
    if contracts.contains_key(id) {
        contracts.insert(id, with_payment(contracts[id], status))
    } else {
        contracts
    }
}

/// Whether an id is left to give to a new contract.
pub open spec fn has_free_id(contracts: Contracts) -> bool {
    !contracts.contains_key(u128::MAX)
}

/// The id that `ContractRepositoryImpl` gives to the next contract: one more
/// than the greatest id in use, and 0 where none is.
pub open spec fn next_id(contracts: Contracts) -> u128
    recommends
        has_free_id(contracts),
{
    if exists|id: u128| contracts.contains_key(id) {
        let greatest = choose|greatest: u128|
            contracts.contains_key(greatest) && forall|id: u128|
                contracts.contains_key(id) ==> id <= greatest;
        (greatest + 1) as u128
    } else {
        0
    }
}

/// The store of the contracts.
pub trait ContractRepository {
    /// The contracts that the store holds.
    spec fn contracts(&self) -> Contracts;

    /// Stores a new unsigned contract under an id that no stored contract
    /// has, and returns the id.
    fn create_contract(
        &mut self,
        contract_json: String,
        buyer: Identity,
        seller: Identity,
        created_at: u64,
    ) -> (id: Uuid)
        requires
            has_free_id(old(self).contracts()),
        ensures
            !old(self).contracts().contains_key(id@),
            final(self).contracts() == old(self).contracts().insert(
                id@,
                unsigned_contract(contract_json@, buyer@, seller@, created_at),
            ),
    ;

    /// The contract stored under the id, if there is one.
    fn get_contract(&self, contract_id: Uuid) -> (contract: Option<Contract>)
        ensures
            match contract {
                Some(c) => lookup_contract(self.contracts(), contract_id@) == Some(c@),
                None => lookup_contract(self.contracts(), contract_id@) is None,
            },
    ;

    /// Sets the flag of `signer` in the contract under the id; does nothing
    /// where there is none.
    fn update_contract_signature(&mut self, contract_id: Uuid, signer: Signer)
        ensures
            final(self).contracts() == signature_effect(
                old(self).contracts(),
                contract_id@,
                signer,
            ),
    ;

    /// Sets the payment flag of the contract under the id to `status`; does
    /// nothing where there is none.
    fn update_payment_status(&mut self, contract_id: Uuid, status: bool)
        ensures
            final(self).contracts() == payment_effect(old(self).contracts(), contract_id@, status),
    ;
}

/// The contracts in a stable map.
pub struct ContractRepositoryImpl {
    store: ContractMemory,
}

impl ContractRepositoryImpl {
    /// The repository over the given map.
    pub fn new(store: ContractMemory) -> (repository: ContractRepositoryImpl)
        ensures
            repository.contracts() == contract_entries(store),
    {
        ContractRepositoryImpl { store }
    }

    /// Whether an id is left to give to a new contract.
    pub fn has_free_id(&self) -> (r: bool)
        ensures
            r == has_free_id(self.contracts()),
    {
        match contract_store_last_key(&self.store) {
            Some(greatest) => greatest < u128::MAX,
            None => true,
        }
    }
}

impl ContractRepository for ContractRepositoryImpl {
    closed spec fn contracts(&self) -> Contracts {
        contract_entries(self.store)
    }

    fn create_contract(
        &mut self,
        contract_json: String,
        buyer: Identity,
        seller: Identity,
        created_at: u64,
    ) -> (id: Uuid)
        ensures
            id@ == next_id(old(self).contracts()),
    {
        proof {
            use_type_invariant(&buyer);
            use_type_invariant(&seller);
        }
        let value: u128 = match contract_store_last_key(&self.store) {
            Some(greatest) => greatest + 1,
            None => 0,
        };
        let contract = Contract::new(contract_json, buyer, seller, created_at);
        contract_store_insert(&mut self.store, value, &contract);
        Uuid::from_u128(value)
    }

    fn get_contract(&self, contract_id: Uuid) -> (contract: Option<Contract>) {
        contract_store_get(&self.store, contract_id.as_u128())
    }

    fn update_contract_signature(&mut self, contract_id: Uuid, signer: Signer) {
        if let Some(mut contract) = contract_store_get(&self.store, contract_id.as_u128()) {
            proof {
                use_type_invariant(&contract.signatories.buyer.0);
                use_type_invariant(&contract.signatories.seller.0);
            }
            match signer {
                Signer::Buyer => contract.signatories.buyer.1 = true,
                Signer::Seller => contract.signatories.seller.1 = true,
            }
            contract_store_insert(&mut self.store, contract_id.as_u128(), &contract);
        }
    }

    fn update_payment_status(&mut self, contract_id: Uuid, status: bool) {
        if let Some(mut contract) = contract_store_get(&self.store, contract_id.as_u128()) {
            proof {
                use_type_invariant(&contract.signatories.buyer.0);
                use_type_invariant(&contract.signatories.seller.0);
            }
            contract.issued_payment = status;
            contract_store_insert(&mut self.store, contract_id.as_u128(), &contract);
        }
    }
}

} // verus!
