//! The lifecycle of a contract: creation, the two signatures, and the payout
//! that is issued once, after both.
//!
//! The payout is made by a collaborator that this crate does not call. So it
//! is issued in two steps. `issue_payment` checks the request, marks the
//! contract as paid before anything is sent, and hands out a
//! `PendingPayment` that says what to send. The caller makes the transfer
//! and reports how it went to `settle_payment`, which takes the mark back if
//! the transfer failed. A failed transfer is taken to have moved nothing: if
//! it did move the money and only the report was lost, the payment can be
//! issued a second time. A payment that is never settled leaves its contract
//! marked as paid.

use super::wallet_service::{is_order_for, Address, TransferOrder, WalletServiceImpl};
use crate::repositories::contract_repository::{
    has_free_id, lookup_contract, payment_effect, signature_effect, ContractRepository,
    Contracts, Signer,
};
use crate::repositories::types::api_error::{failure_of, ApiError, ErrorKind};
use crate::repositories::types::contract::{unsigned_contract, Contract, ContractView};
use crate::repositories::types::identity::Identity;
use crate::repositories::types::uuid::{parse_uuid, Uuid};
use vstd::prelude::*;
use vstd::string::StringExecFns;

verus! {

/// The party as which `caller` signs the contract: the buyer where it is the
/// buyer, else the seller where it is the seller, else none.
pub open spec fn signer_of(contract: ContractView, caller: Seq<u8>) -> Option<Signer> {
    if caller == contract.buyer {
        Some(Signer::Buyer)
    } else if caller == contract.seller {
        Some(Signer::Seller)
    } else {
        None
    }
}

/// Why looking a contract up by the text of its id fails, if it does:
/// `InvalidArgument` for a malformed text, `NotFound` where no contract has
/// the id.
pub open spec fn find_failure(contracts: Contracts, contract_id: Seq<char>) -> Option<ErrorKind> {
    match parse_uuid(contract_id) {
        None => Some(ErrorKind::InvalidArgument),
        Some(id) => if contracts.contains_key(id) {
            None
        } else {
            Some(ErrorKind::NotFound)
        },
    }
}

/// The contract that the text of an id names. It is read only where
/// `find_failure` is none.
pub open spec fn found_contract(contracts: Contracts, contract_id: Seq<char>) -> ContractView {
    contracts[parse_uuid(contract_id)->0]
}

/// Why `sign_contract` fails, if it does: the contract is not found, or the
/// caller is neither its buyer nor its seller (`PermissionDenied`).
pub open spec fn sign_failure(contracts: Contracts, contract_id: Seq<char>, caller: Seq<u8>) -> Option<
    ErrorKind,
> {
    if find_failure(contracts, contract_id) is Some {
        find_failure(contracts, contract_id)
    } else if signer_of(found_contract(contracts, contract_id), caller) is None {
        Some(ErrorKind::PermissionDenied)
    } else {
        None
    }
}

/// The contracts after `sign_contract`: the caller's flag is set where the
/// call succeeds, and nothing changes where it fails.
pub open spec fn sign_effect(contracts: Contracts, contract_id: Seq<char>, caller: Seq<u8>) -> Contracts {
    if sign_failure(contracts, contract_id, caller) is Some {
        contracts
    } else {
        signature_effect(
            contracts,
            parse_uuid(contract_id)->0,
            signer_of(found_contract(contracts, contract_id), caller)->0,
        )
    }
}

/// What `is_signed` says: whether both parties have signed, or why the
/// contract is not found.
pub open spec fn signed_answer(contracts: Contracts, contract_id: Seq<char>) -> Result<
    bool,
    ErrorKind,
> {
    match find_failure(contracts, contract_id) {
        Some(kind) => Err(kind),
        None => Ok(found_contract(contracts, contract_id).is_signed()),
    }
}

/// Why `issue_payment` fails, if it does. In this order: the contract is not
/// found; the caller is not its seller (`PermissionDenied`); a signature is
/// missing (`FailedPrecondition`); the payment is issued already
/// (`FailedPrecondition`).
pub open spec fn payment_failure(contracts: Contracts, contract_id: Seq<char>, caller: Seq<u8>) -> Option<
    ErrorKind,
> {
    if find_failure(contracts, contract_id) is Some {
        find_failure(contracts, contract_id)
    } else if caller != found_contract(contracts, contract_id).seller {
        Some(ErrorKind::PermissionDenied)
    } else if !found_contract(contracts, contract_id).is_signed() {
        Some(ErrorKind::FailedPrecondition)
    } else if found_contract(contracts, contract_id).issued_payment {
        Some(ErrorKind::FailedPrecondition)
    } else {
        None
    }
}

/// The contracts after `issue_payment`: the contract is marked as paid where
/// the call succeeds, and nothing changes where it fails.
pub open spec fn payment_effect_of_issue(
    contracts: Contracts,
    contract_id: Seq<char>,
    caller: Seq<u8>,
) -> Contracts {
    if payment_failure(contracts, contract_id, caller) is Some {
        contracts
    } else {
        payment_effect(contracts, parse_uuid(contract_id)->0, true)
    }
}

/// The contracts after `settle_payment`: as they were where the transfer went
/// through, and with the mark taken back where it failed.
pub open spec fn settle_effect(contracts: Contracts, id: u128, transferred: bool) -> Contracts {
    if transferred {
        contracts
    } else {
        payment_effect(contracts, id, false)
    }
}

/// What a failed lookup of a contract is told.
pub open spec fn find_failure_text(kind: ErrorKind) -> Seq<char> {
    if kind == ErrorKind::InvalidArgument {
        "Malformed contract id"@
    } else {
        "Contract not found"@
    }
}

/// What a failed `sign_contract` is told.
pub open spec fn sign_failure_text(kind: ErrorKind) -> Seq<char> {
    if kind == ErrorKind::PermissionDenied {
        "Caller not authorized to sign this contract"@
    } else {
        find_failure_text(kind)
    }
}

/// What a failed `issue_payment` is told.
pub open spec fn payment_failure_text(
    contracts: Contracts,
    contract_id: Seq<char>,
    kind: ErrorKind,
) -> Seq<char> {
    if kind == ErrorKind::PermissionDenied {
        "Caller not authorized"@
    } else if kind == ErrorKind::FailedPrecondition {
        if found_contract(contracts, contract_id).is_signed() {
            "already issued"@
        } else {
            "not signed"@
        }
    } else {
        find_failure_text(kind)
    }
}

/// What `settle_payment` tells of a transfer that failed with `detail`.
pub open spec fn transfer_failure_text(detail: Seq<char>) -> Seq<char> {
    "Transfer failed: "@ + detail
}

/// A payment that is marked in the contract and not yet settled: the
/// contract and the order for the transfer. Only `issue_payment` makes one,
/// and `settle_payment` takes it back.
#[derive(Debug)]
pub struct PendingPayment {
    contract_id: Uuid,
    order: TransferOrder,
}

impl PendingPayment {
    /// The contract that is paid.
    pub closed spec fn contract(&self) -> u128 {
        self.contract_id@
    }

    /// The order for the transfer.
    pub closed spec fn transfer(&self) -> TransferOrder {
        self.order
    }

    /// The contract that is paid.
    pub fn contract_id(&self) -> (id: Uuid)
        ensures
            id@ == self.contract(),
    {
        self.contract_id
    }

    /// The order for the transfer.
    pub fn order(&self) -> (order: &TransferOrder)
        ensures
            *order == self.transfer(),
    {
        &self.order
    }
}

/// The operations on contracts.
pub trait ContractService {
    /// The contracts.
    spec fn contracts(&self) -> Contracts;

    /// The settings that transfer orders are made with.
    spec fn wallet(&self) -> WalletServiceImpl;

    /// Stores a new unsigned contract and returns its id, which no stored
    /// contract has. No role is asked of the caller.
    fn create_contract(
        &mut self,
        contract_json: String,
        buyer: Identity,
        seller: Identity,
        created_at: u64,
    ) -> (id: Uuid)
        requires
            has_free_id(old(self).contracts()),
        ensures
            !old(self).contracts().contains_key(id@),
            final(self).contracts() == old(self).contracts().insert(
                id@,
                unsigned_contract(contract_json@, buyer@, seller@, created_at),
            ),
            final(self).wallet() == old(self).wallet(),
    ;

    /// Records the signature of the caller, who must be the buyer or the
    /// seller of the contract. Signing again changes nothing.
    fn sign_contract(&mut self, contract_id: String, caller: Identity) -> (r: Result<(), ApiError>)
        ensures
            failure_of(r) == sign_failure(old(self).contracts(), contract_id@, caller@),
            r matches Err(e) ==> e.message@ == sign_failure_text(e.kind),
            final(self).contracts() == sign_effect(old(self).contracts(), contract_id@, caller@),
            final(self).wallet() == old(self).wallet(),
    ;

    /// The contract with the given id, if there is one. A malformed id is an
    /// error.
    fn get_contract(&self, contract_id: String) -> (r: Result<Option<Contract>, ApiError>)
        ensures
            match r {
                Ok(Some(contract)) => parse_uuid(contract_id@) is Some && lookup_contract(
                    self.contracts(),
                    parse_uuid(contract_id@)->0,
                ) == Some(contract@),
                Ok(None) => find_failure(self.contracts(), contract_id@) == Some(
                    ErrorKind::NotFound,
                ),
                Err(e) => parse_uuid(contract_id@) is None && e.is(
                    ErrorKind::InvalidArgument,
                    find_failure_text(ErrorKind::InvalidArgument),
                ),
            },
    ;

    /// Whether both parties have signed the contract.
    fn is_signed(&self, contract_id: String) -> (r: Result<bool, ApiError>)
        ensures
            match r {
                Ok(signed) => signed_answer(self.contracts(), contract_id@) == Ok::<
                    bool,
                    ErrorKind,
                >(signed),
                Err(e) => signed_answer(self.contracts(), contract_id@) == Err::<bool, ErrorKind>(
                    e.kind,
                ) && e.message@ == find_failure_text(e.kind),
            },
    ;

    /// The first step of a payout. Where the caller is the seller of the
    /// contract, both parties have signed and no payment is issued, the
    /// contract is marked as paid and the order for the transfer is handed
    /// out. Else nothing changes and nothing is to be sent.
    fn issue_payment(
        &mut self,
        contract_id: String,
        caller: Identity,
        address: Address,
        amount: u64,
    ) -> (r: Result<PendingPayment, ApiError>)
        ensures
            failure_of(r) == payment_failure(old(self).contracts(), contract_id@, caller@),
            final(self).contracts() == payment_effect_of_issue(
                old(self).contracts(),
                contract_id@,
                caller@,
            ),
            final(self).wallet() == old(self).wallet(),
            match r {
                Ok(pending) => parse_uuid(contract_id@) == Some(pending.contract()) && is_order_for(
                    pending.transfer(),
                    old(self).wallet().uses_testnet(),
                    amount,
                    address@,
                ),
                Err(e) => e.message@ == payment_failure_text(
                    old(self).contracts(),
                    contract_id@,
                    e.kind,
                ),
            },
    ;

    /// The second step of a payout. Where the transfer went through, the
    /// contract stays marked as paid for good. Where it failed, the mark is
    /// taken back, so that the payment can be issued again, and the failure
    /// is reported as `Internal` with the detail of the transfer's error.
    fn settle_payment(&mut self, payment: PendingPayment, outcome: Result<String, ApiError>) -> (r:
        Result<(), ApiError>)
        ensures
            final(self).contracts() == settle_effect(
                old(self).contracts(),
                payment.contract(),
                outcome is Ok,
            ),
            final(self).wallet() == old(self).wallet(),
            match outcome {
                Ok(_) => r is Ok,
                Err(failure) => r matches Err(e) && e.is(
                    ErrorKind::Internal,
                    transfer_failure_text(failure.message@),
                ),
            },
    ;
}

/// The contract lifecycle over a contract repository.
pub struct ContractServiceImpl<T: ContractRepository> {
    contract_repository: T,
    wallet_service: WalletServiceImpl,
}

impl<T: ContractRepository> ContractServiceImpl<T> {
    pub fn new(contract_repository: T, wallet_service: WalletServiceImpl) -> (service:
        ContractServiceImpl<T>)
        ensures
            service.contracts() == contract_repository.contracts(),
            service.wallet() == wallet_service,
    {
        ContractServiceImpl { contract_repository, wallet_service }
    }

    pub fn with_wallet(self, wallet: WalletServiceImpl) -> (service: ContractServiceImpl<T>)
        ensures
            service.contracts() == self.contracts(),
            service.wallet() == wallet,
    {
        let mut service = self;
        service.wallet_service = wallet;
        service
    }

    /// The repository, for those who only read it.
    pub fn repository(&self) -> (contract_repository: &T)
        ensures
            contract_repository.contracts() == self.contracts(),
    {
        &self.contract_repository
    }

    /// The contract that the text of an id names, with the id.
    fn find(&self, contract_id: &str) -> (r: Result<(Uuid, Contract), ApiError>)
        ensures
            match r {
                Ok((id, contract)) => find_failure(self.contracts(), contract_id@) is None
                    && parse_uuid(contract_id@) == Some(id@) && contract@ == found_contract(
                    self.contracts(),
                    contract_id@,
                ),
                Err(e) => find_failure(self.contracts(), contract_id@) == Some(e.kind)
                    && e.message@ == find_failure_text(e.kind),
            },
    {
        let id = match Uuid::try_from(contract_id) {
            Ok(id) => id,
            Err(e) => {
                return Err(e);
            },
        };
        match self.contract_repository.get_contract(id) {
            Some(contract) => Ok((id, contract)),
            None => Err(ApiError::not_found("Contract not found")),
        }
    }
}

impl<T: ContractRepository> ContractService for ContractServiceImpl<T> {
    closed spec fn contracts(&self) -> Contracts {
        self.contract_repository.contracts()
    }

    closed spec fn wallet(&self) -> WalletServiceImpl {
        self.wallet_service
    }

    fn create_contract(
        &mut self,
        contract_json: String,
        buyer: Identity,
        seller: Identity,
        created_at: u64,
    ) -> (id: Uuid) {
        self.contract_repository.create_contract(contract_json, buyer, seller, created_at)
    }

    fn sign_contract(&mut self, contract_id: String, caller: Identity) -> (r: Result<(), ApiError>) {
        let (id, contract) = match self.find(contract_id.as_str()) {
            Ok(found) => found,
            Err(e) => {
                return Err(e);
            },
        };
        if caller.same_as(&contract.signatories.buyer.0) {
            self.contract_repository.update_contract_signature(id, Signer::Buyer);
            Ok(())
        } else if caller.same_as(&contract.signatories.seller.0) {
            self.contract_repository.update_contract_signature(id, Signer::Seller);
            Ok(())
        } else {
            Err(ApiError::permission_denied("Caller not authorized to sign this contract"))
        }
    }

    fn get_contract(&self, contract_id: String) -> (r: Result<Option<Contract>, ApiError>) {
        let id = match Uuid::try_from(contract_id.as_str()) {
            Ok(id) => id,
            Err(e) => {
                return Err(e);
            },
        };
        Ok(self.contract_repository.get_contract(id))
    }

    fn is_signed(&self, contract_id: String) -> (r: Result<bool, ApiError>) {
        match self.find(contract_id.as_str()) {
            Ok((_, contract)) => Ok(contract.is_signed()),
            Err(e) => Err(e),
        }
    }

    fn issue_payment(
        &mut self,
        contract_id: String,
        caller: Identity,
        address: Address,
        amount: u64,
    ) -> (r: Result<PendingPayment, ApiError>) {
        let (id, contract) = match self.find(contract_id.as_str()) {
            Ok(found) => found,
            Err(e) => {
                return Err(e);
            },
        };
        if !caller.same_as(&contract.signatories.seller.0) {
            return Err(ApiError::permission_denied("Caller not authorized"));
        }
        if !contract.is_signed() {
            return Err(ApiError::failed_precondition("not signed"));
        }
        if contract.issued_payment() {
            return Err(ApiError::failed_precondition("already issued"));
        }
        // The mark is set before anything is sent, so that a second request
        // that starts from here on is refused.
        self.contract_repository.update_payment_status(id, true);
        Ok(PendingPayment { contract_id: id, order: self.wallet_service.transfer_order(amount, address) })
    }

    fn settle_payment(&mut self, payment: PendingPayment, outcome: Result<String, ApiError>) -> (r:
        Result<(), ApiError>) {
        match outcome {
            Ok(_) => Ok(()),
            Err(failure) => {
                self.contract_repository.update_payment_status(payment.contract_id, false);
                let mut message = String::from_str("Transfer failed: ");
                message.append(failure.message.as_str());
                Err(ApiError::internal(message.as_str()))
            },
        }
    }
}

/// A caller that is neither the buyer nor the seller of a contract cannot
/// sign it: the call fails with `PermissionDenied` and no flag changes.
pub proof fn law_stranger_cannot_sign(contracts: Contracts, contract_id: Seq<char>, caller: Seq<u8>)
    requires
        find_failure(contracts, contract_id) is None,
        caller != found_contract(contracts, contract_id).buyer,
        caller != found_contract(contracts, contract_id).seller,
    ensures
        sign_failure(contracts, contract_id, caller) == Some(ErrorKind::PermissionDenied),
        sign_effect(contracts, contract_id, caller) == contracts,
{
}

/// `sign_contract` touches one flag of one contract: every other contract,
/// and every other field of this one, stays as it was, and no flag is ever
/// cleared.
pub proof fn law_sign_sets_one_flag(contracts: Contracts, contract_id: Seq<char>, caller: Seq<u8>)
    ensures
        sign_effect(contracts, contract_id, caller).dom() == contracts.dom(),
        forall|id: u128| #[trigger]
            contracts.contains_key(id) ==> {
                let before = contracts[id];
                let after = sign_effect(contracts, contract_id, caller)[id];
                &&& after.buyer == before.buyer
                &&& after.seller == before.seller
                &&& after.contract_json == before.contract_json
                &&& after.created_at == before.created_at
                &&& after.issued_payment == before.issued_payment
                &&& before.buyer_signed ==> after.buyer_signed
                &&& before.seller_signed ==> after.seller_signed
                &&& parse_uuid(contract_id) != Some(id) ==> after == before
            },
{
    let after = sign_effect(contracts, contract_id, caller);
    assert(after.dom() =~= contracts.dom());
}

/// A contract is unsigned when it is created.
pub proof fn law_new_contract_is_unsigned(
    contracts: Contracts,
    id: u128,
    contract_id: Seq<char>,
    contract_json: Seq<char>,
    buyer: Seq<u8>,
    seller: Seq<u8>,
    created_at: u64,
)
    requires
        parse_uuid(contract_id) == Some(id),
    ensures
        signed_answer(
            contracts.insert(id, unsigned_contract(contract_json, buyer, seller, created_at)),
            contract_id,
        ) == Ok::<bool, ErrorKind>(false),
{
}

/// After a successful `sign_contract`, the contract counts as signed exactly
/// if the other party had signed before. The two parties must differ: where
/// one identity is both, it signs as the buyer every time, and the seller's
/// flag is never set.
pub proof fn law_signed_once_both_signed(contracts: Contracts, contract_id: Seq<char>, caller: Seq<u8>)
    requires
        sign_failure(contracts, contract_id, caller) is None,
        found_contract(contracts, contract_id).buyer != found_contract(
            contracts,
            contract_id,
        ).seller,
    ensures
        signed_answer(sign_effect(contracts, contract_id, caller), contract_id) == Ok::<
            bool,
            ErrorKind,
        >(
            if caller == found_contract(contracts, contract_id).buyer {
                found_contract(contracts, contract_id).seller_signed
            } else {
                found_contract(contracts, contract_id).buyer_signed
            },
        ),
{
}

/// Once the buyer and the seller of a new contract have each signed, in
/// either order, the contract is signed; after only one of them it is not.
pub proof fn law_both_signatures_sign(
    contracts: Contracts,
    contract_id: Seq<char>,
    first: Seq<u8>,
    second: Seq<u8>,
)
    requires
        find_failure(contracts, contract_id) is None,
        !found_contract(contracts, contract_id).buyer_signed,
        !found_contract(contracts, contract_id).seller_signed,
        first != second,
        first == found_contract(contracts, contract_id).buyer || first == found_contract(
            contracts,
            contract_id,
        ).seller,
        second == found_contract(contracts, contract_id).buyer || second == found_contract(
            contracts,
            contract_id,
        ).seller,
    ensures
        signed_answer(contracts, contract_id) == Ok::<bool, ErrorKind>(false),
        signed_answer(sign_effect(contracts, contract_id, first), contract_id) == Ok::<
            bool,
            ErrorKind,
        >(false),
        sign_failure(sign_effect(contracts, contract_id, first), contract_id, second) is None,
        signed_answer(
            sign_effect(sign_effect(contracts, contract_id, first), contract_id, second),
            contract_id,
        ) == Ok::<bool, ErrorKind>(true),
{
}

/// Signing again changes nothing, and a signed contract stays signed
/// whoever tries to sign whichever contract.
pub proof fn law_signing_again_is_idle(
    contracts: Contracts,
    contract_id: Seq<char>,
    caller: Seq<u8>,
    other_id: Seq<char>,
    other_caller: Seq<u8>,
)
    ensures
        sign_effect(sign_effect(contracts, contract_id, caller), contract_id, caller)
            == sign_effect(contracts, contract_id, caller),
        sign_failure(sign_effect(contracts, contract_id, caller), contract_id, caller)
            == sign_failure(contracts, contract_id, caller),
        signed_answer(contracts, contract_id) == Ok::<bool, ErrorKind>(true) ==> signed_answer(
            sign_effect(contracts, other_id, other_caller),
            contract_id,
        ) == Ok::<bool, ErrorKind>(true),
{
    let once = sign_effect(contracts, contract_id, caller);
    assert(sign_effect(once, contract_id, caller) =~= once);
}

/// No payment is issued for a contract that lacks a signature: the seller's
/// request fails with `FailedPrecondition`, and nothing changes.
pub proof fn law_no_payment_before_signed(
    contracts: Contracts,
    contract_id: Seq<char>,
    caller: Seq<u8>,
)
    requires
        find_failure(contracts, contract_id) is None,
        caller == found_contract(contracts, contract_id).seller,
        !found_contract(contracts, contract_id).is_signed(),
    ensures
        payment_failure(contracts, contract_id, caller) == Some(ErrorKind::FailedPrecondition),
        payment_effect_of_issue(contracts, contract_id, caller) == contracts,
{
}

/// Only the seller of a contract can have its payment issued: the request of
/// anyone else fails with `PermissionDenied`, and nothing changes.
pub proof fn law_only_seller_is_paid(contracts: Contracts, contract_id: Seq<char>, caller: Seq<u8>)
    requires
        find_failure(contracts, contract_id) is None,
        caller != found_contract(contracts, contract_id).seller,
    ensures
        payment_failure(contracts, contract_id, caller) == Some(ErrorKind::PermissionDenied),
        payment_effect_of_issue(contracts, contract_id, caller) == contracts,
{
}

/// `issue_payment` succeeds exactly for the seller of a signed contract
/// whose payment flag is clear, and then sets that flag and nothing else.
pub proof fn law_payment_is_issued_when_due(
    contracts: Contracts,
    contract_id: Seq<char>,
    caller: Seq<u8>,
)
    ensures
        payment_failure(contracts, contract_id, caller) is None <==> {
            &&& find_failure(contracts, contract_id) is None
            &&& caller == found_contract(contracts, contract_id).seller
            &&& found_contract(contracts, contract_id).is_signed()
            &&& !found_contract(contracts, contract_id).issued_payment
        },
        payment_failure(contracts, contract_id, caller) is None ==> payment_effect_of_issue(
            contracts,
            contract_id,
            caller,
        ) == contracts.insert(
            parse_uuid(contract_id)->0,
            ContractView { issued_payment: true, ..found_contract(contracts, contract_id) },
        ),
{
}

/// After a payout that went through, the contract stays marked as paid, and
/// every further request to issue its payment fails with
/// `FailedPrecondition` where it comes from the seller and fails in any
/// case: no second order is handed out.
pub proof fn law_paid_once(
    contracts: Contracts,
    contract_id: Seq<char>,
    caller: Seq<u8>,
    next_caller: Seq<u8>,
)
    requires
        payment_failure(contracts, contract_id, caller) is None,
    ensures
        ({
            let id = parse_uuid(contract_id)->0;
            let paid = settle_effect(
                payment_effect_of_issue(contracts, contract_id, caller),
                id,
                true,
            );
            &&& paid[id].issued_payment
            &&& payment_failure(paid, contract_id, caller) == Some(ErrorKind::FailedPrecondition)
            &&& payment_failure(paid, contract_id, next_caller) is Some
            &&& payment_effect_of_issue(paid, contract_id, next_caller) == paid
        }),
{
}

/// While a payment is pending, a second request to issue it fails.
pub proof fn law_pending_payment_locks(
    contracts: Contracts,
    contract_id: Seq<char>,
    caller: Seq<u8>,
    next_caller: Seq<u8>,
)
    requires
        payment_failure(contracts, contract_id, caller) is None,
    ensures
        payment_failure(
            payment_effect_of_issue(contracts, contract_id, caller),
            contract_id,
            next_caller,
        ) is Some,
{
}

/// After a failed transfer the contracts are as they were before the
/// payment was issued: the flag is clear again, and the same request is
/// accepted again.
pub proof fn law_failed_transfer_is_undone(
    contracts: Contracts,
    contract_id: Seq<char>,
    caller: Seq<u8>,
)
    requires
        payment_failure(contracts, contract_id, caller) is None,
    ensures
        ({
            let id = parse_uuid(contract_id)->0;
            let undone = settle_effect(
                payment_effect_of_issue(contracts, contract_id, caller),
                id,
                false,
            );
            &&& undone == contracts
            &&& !undone[id].issued_payment
            &&& payment_failure(undone, contract_id, caller) is None
        }),
{
    let id = parse_uuid(contract_id)->0;
    let undone = settle_effect(payment_effect_of_issue(contracts, contract_id, caller), id, false);
    assert(undone =~= contracts);
}

} // verus!
