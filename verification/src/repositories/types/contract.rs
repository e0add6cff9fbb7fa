//! Contracts and the two parties that sign them.

use super::identity::Identity;
use vstd::prelude::*;

verus! {

/// The two parties of a contract, each with the flag that says whether it
/// has signed.
#[derive(Debug, PartialEq, Eq)]
pub struct ContractSignatories {
    pub buyer: (Identity, bool),
    pub seller: (Identity, bool),
}

/// A contract: its parties, the text that they agreed on elsewhere, which is
/// never read here, the time of its creation and whether its payment has
/// been issued.
#[derive(Debug, PartialEq, Eq)]
pub struct Contract {
    pub signatories: ContractSignatories,
    pub contract_json: String,
    pub created_at: u64,
    pub issued_payment: bool,
}

/// What a contract says, as plain values.
pub struct ContractView {
    pub buyer: Seq<u8>,
    pub buyer_signed: bool,
    pub seller: Seq<u8>,
    pub seller_signed: bool,
    pub contract_json: Seq<char>,
    pub created_at: u64,
    pub issued_payment: bool,
}

impl ContractView {
    /// Both parties have signed.
    pub open spec fn is_signed(self) -> bool {
        self.buyer_signed && self.seller_signed
    }
}

/// The contract as it is created: unsigned and unpaid.
pub open spec fn unsigned_contract(
    contract_json: Seq<char>,
    buyer: Seq<u8>,
    seller: Seq<u8>,
    created_at: u64,
) -> ContractView {
    ContractView {
        buyer,
        buyer_signed: false,
        seller,
        seller_signed: false,
        contract_json,
        created_at,
        issued_payment: false,
    }
}

impl View for Contract {
    type V = ContractView;

    open spec fn view(&self) -> ContractView {
        ContractView {
            buyer: self.signatories.buyer.0@,
            buyer_signed: self.signatories.buyer.1,
            seller: self.signatories.seller.0@,
            seller_signed: self.signatories.seller.1,
            contract_json: self.contract_json@,
            created_at: self.created_at,
            issued_payment: self.issued_payment,
        }
    }
}

impl Contract {
    /// An unsigned, unpaid contract between the two parties, created at the
    /// given time.
    pub fn new(contract_json: String, buyer: Identity, seller: Identity, created_at: u64) -> (contract:
        Contract)
        ensures
            contract@ == unsigned_contract(contract_json@, buyer@, seller@, created_at),
    {
        Contract {
            signatories: ContractSignatories { buyer: (buyer, false), seller: (seller, false) },
            contract_json,
            created_at,
            issued_payment: false,
        }
    }

    /// Whether both parties have signed.
    pub fn is_signed(&self) -> (r: bool)
        ensures
            r == self@.is_signed(),
    {
        self.signatories.buyer.1 && self.signatories.seller.1
    }

    /// Whether the payment has been issued.
    pub fn issued_payment(&self) -> (r: bool)
        ensures
            r == self@.issued_payment,
    {
        self.issued_payment
    }
}

impl Clone for ContractSignatories {
    fn clone(&self) -> (copy: ContractSignatories)
        ensures
            copy.buyer.0@ == self.buyer.0@,
            copy.buyer.1 == self.buyer.1,
            copy.seller.0@ == self.seller.0@,
            copy.seller.1 == self.seller.1,
    {
        ContractSignatories {
            buyer: (self.buyer.0.clone(), self.buyer.1),
            seller: (self.seller.0.clone(), self.seller.1),
        }
    }
}

impl Clone for Contract {
    fn clone(&self) -> (copy: Contract)
        ensures
            copy@ == self@,
    {
        Contract {
            signatories: self.signatories.clone(),
            contract_json: self.contract_json.clone(),
            created_at: self.created_at,
            issued_payment: self.issued_payment,
        }
    }
}

} // verus!
