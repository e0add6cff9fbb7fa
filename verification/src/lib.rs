//! Two-party escrow contracts on a durable store.
//!
//! A buyer and a seller each sign a contract that was written elsewhere; once
//! both have signed, the seller may have the payment issued, at most once.
//! The crate holds the user directory and its access rules, the contract
//! repository, and the signing and payout lifecycle built on them.
//!
//! The functions of this module are the operations that a host offers to its
//! callers. The host supplies what only it knows: the identity of the caller
//! and the time. It makes the transfers that `issue_payment` orders and
//! reports their outcome to `ContractService::settle_payment`.

pub mod repositories;
pub mod services;

use repositories::contract_repository::{has_free_id, ContractRepository, Contracts};
use repositories::types::api_error::{failure_of, ApiError, ErrorKind};
use repositories::types::contract::{unsigned_contract, Contract};
use repositories::types::identity::{anonymous_bytes, Identity};
use repositories::types::user::{Role, User};
use repositories::types::uuid::{parse_uuid, Uuid};
use repositories::user_repository::{
    create_user_effect, create_user_failure, lists_users, remove_user_failure,
    update_user_effect, Directory, UserRepository,
};
use services::access_control_service::{
    anonymous_failure, role_failure, AccessControlService, AccessControlServiceImpl,
};
use services::contract_service::{
    find_failure, find_failure_text, found_contract, payment_effect_of_issue, payment_failure,
    payment_failure_text, sign_effect, sign_failure, sign_failure_text, signed_answer,
    ContractService, ContractServiceImpl, PendingPayment,
};
use services::user_service::{UserService, UserServiceImpl};
use services::wallet_service::{address_bytes, is_order_for, Address};
use vstd::prelude::*;

verus! {

/// Why a caller that must hold `role` to change something is turned away.
/// The role is looked at first: `NotFound` where the caller is not
/// registered, `PermissionDenied` where it holds another role. A caller that
/// holds the role is still turned away, with `Unauthenticated`, where it is
/// the anonymous identity.
pub open spec fn access_failure(users: Directory, caller: Seq<u8>, role: Role) -> Option<ErrorKind> {
    if role_failure(users, caller, role) is Some {
        role_failure(users, caller, role)
    } else {
        anonymous_failure(caller)
    }
}

/// The guard before every change that asks for a role.
fn check_access<T: UserRepository>(users: &UserServiceImpl<T>, caller: &Identity, role: Role) -> (r:
    Result<(), ApiError>)
    ensures
        failure_of(r) == access_failure(users.users(), caller@, role),
{
    let guard = AccessControlServiceImpl::new(users.repository());
    let held = match role {
        Role::Admin => guard.assert_principal_is_admin(caller),
        Role::FrontendServer => guard.assert_principal_is_frontend(caller),
    };
    match held {
        Ok(()) => guard.assert_principal_not_anonymous(caller),
        Err(e) => Err(e),
    }
}

/// Registers the identity that sets the service up as its first admin. It
/// fails with `Conflict` where that identity is registered already.
pub fn init<T: UserRepository>(users: &mut UserServiceImpl<T>, calling_principal: Identity) -> (r:
    Result<(), ApiError>)
    ensures
        failure_of(r) == create_user_failure(old(users).users(), calling_principal@),
        final(users).users() == create_user_effect(
            old(users).users(),
            calling_principal@,
            User { role: Role::Admin },
        ),
{
    users.create_user(calling_principal, User { role: Role::Admin })
}

/// Why `add_permission` fails, if it does: the caller does not pass the
/// guard for admins, or the identity is registered already.
pub open spec fn add_permission_failure(users: Directory, caller: Seq<u8>, principal: Seq<u8>) -> Option<
    ErrorKind,
> {
    if access_failure(users, caller, Role::Admin) is Some {
        access_failure(users, caller, Role::Admin)
    } else {
        create_user_failure(users, principal)
    }
}

/// Registers `principal` with `role`. For admins.
pub fn add_permission<T: UserRepository>(
    users: &mut UserServiceImpl<T>,
    caller: &Identity,
    principal: Identity,
    role: Role,
) -> (r: Result<(), ApiError>)
    ensures
        failure_of(r) == add_permission_failure(old(users).users(), caller@, principal@),
        final(users).users() == if r is Ok {
            old(users).users().insert(principal@, User { role })
        } else {
            old(users).users()
        },
{
    match check_access(users, caller, Role::Admin) {
        Ok(()) => {},
        Err(e) => {
            return Err(e);
        },
    }
    users.create_user(principal, User { role })
}

/// Why `remove_permission` fails, if it does: the caller does not pass the
/// guard for admins, or the identity is not registered.
pub open spec fn remove_permission_failure(
    users: Directory,
    caller: Seq<u8>,
    principal: Seq<u8>,
) -> Option<ErrorKind> {
    if access_failure(users, caller, Role::Admin) is Some {
        access_failure(users, caller, Role::Admin)
    } else {
        remove_user_failure(users, principal)
    }
}

/// Takes `principal` out of the directory. For admins.
pub fn remove_permission<T: UserRepository>(
    users: &mut UserServiceImpl<T>,
    caller: &Identity,
    principal: &Identity,
) -> (r: Result<(), ApiError>)
    ensures
        failure_of(r) == remove_permission_failure(old(users).users(), caller@, principal@),
        final(users).users() == if r is Ok {
            old(users).users().remove(principal@)
        } else {
            old(users).users()
        },
{
    match check_access(users, caller, Role::Admin) {
        Ok(()) => {},
        Err(e) => {
            return Err(e);
        },
    }
    let r = users.remove_user(principal);
    proof {
        if r is Err {
            assert(old(users).users().remove(principal@) =~= old(users).users());
        }
    }
    r
}

/// Registers `principal` with `role`, whether it was registered or not. For
/// admins.
pub fn update_permission<T: UserRepository>(
    users: &mut UserServiceImpl<T>,
    caller: &Identity,
    principal: Identity,
    role: Role,
) -> (r: Result<(), ApiError>)
    ensures
        failure_of(r) == access_failure(old(users).users(), caller@, Role::Admin),
        final(users).users() == if r is Ok {
            update_user_effect(old(users).users(), principal@, User { role })
        } else {
            old(users).users()
        },
{
    match check_access(users, caller, Role::Admin) {
        Ok(()) => {},
        Err(e) => {
            return Err(e);
        },
    }
    users.update_user(principal, User { role })
}

/// Every registered identity with its user, in no stated order. For admins.
pub fn get_users<T: UserRepository>(users: &UserServiceImpl<T>, caller: &Identity) -> (r: Result<
    Vec<(Identity, User)>,
    ApiError,
>)
    ensures
        failure_of(r) == role_failure(users.users(), caller@, Role::Admin),
        r matches Ok(list) ==> lists_users(list@, users.users()),
{
    let guard = AccessControlServiceImpl::new(users.repository());
    match guard.assert_principal_is_admin(caller) {
        Ok(()) => {},
        Err(e) => {
            return Err(e);
        },
    }
    Ok(users.list_users())
}

/// Stores a new unsigned contract and returns its id. Any caller may.
pub fn create_contract<T: ContractRepository>(
    contracts: &mut ContractServiceImpl<T>,
    contract_json: String,
    buyer: Identity,
    seller: Identity,
    created_at: u64,
) -> (id: Uuid)
    requires
        has_free_id(old(contracts).contracts()),
    ensures
        !old(contracts).contracts().contains_key(id@),
        final(contracts).contracts() == old(contracts).contracts().insert(
            id@,
            unsigned_contract(contract_json@, buyer@, seller@, created_at),
        ),
        final(contracts).wallet() == old(contracts).wallet(),
{
    contracts.create_contract(contract_json, buyer, seller, created_at)
}

/// Stores a new unsigned contract and returns its id, where an id is left
/// for it; else nothing changes.
pub fn try_create_contract<T: ContractRepository>(
    contracts: &mut ContractServiceImpl<T>,
    contract_json: String,
    buyer: Identity,
    seller: Identity,
    created_at: u64,
) -> (r: Option<Uuid>)
    ensures
        r is Some <==> has_free_id(old(contracts).contracts()),
        final(contracts).wallet() == old(contracts).wallet(),
        match r {
            Some(id) => {
                &&& !old(contracts).contracts().contains_key(id@)
                &&& final(contracts).contracts() == old(contracts).contracts().insert(
                    id@,
                    unsigned_contract(contract_json@, buyer@, seller@, created_at),
                )
            },
            None => final(contracts).contracts() == old(contracts).contracts(),
        },
{
    match contracts.repository().get_contract(Uuid::from_u128(u128::MAX)) {
        Some(_) => None,
        None => Some(contracts.create_contract(contract_json, buyer, seller, created_at)),
    }
}

/// Records the signature of the caller on the contract.
pub fn sign_contract<T: ContractRepository>(
    contracts: &mut ContractServiceImpl<T>,
    caller: Identity,
    contract_id: String,
) -> (r: Result<(), ApiError>)
    ensures
        failure_of(r) == sign_failure(old(contracts).contracts(), contract_id@, caller@),
        r matches Err(e) ==> e.message@ == sign_failure_text(e.kind),
        final(contracts).contracts() == sign_effect(
            old(contracts).contracts(),
            contract_id@,
            caller@,
        ),
        final(contracts).wallet() == old(contracts).wallet(),
{
    contracts.sign_contract(contract_id, caller)
}

/// The contract with the given id, if there is one. A malformed id is an
/// error, not an absent contract.
pub fn get_contract<T: ContractRepository>(
    contracts: &ContractServiceImpl<T>,
    contract_id: String,
) -> (r: Result<Option<Contract>, ApiError>)
    ensures
        match r {
            Ok(Some(contract)) => find_failure(contracts.contracts(), contract_id@) is None
                && contract@ == found_contract(contracts.contracts(), contract_id@),
            Ok(None) => find_failure(contracts.contracts(), contract_id@) == Some(
                ErrorKind::NotFound,
            ),
            Err(e) => find_failure(contracts.contracts(), contract_id@) == Some(
                ErrorKind::InvalidArgument,
            ) && e.is(ErrorKind::InvalidArgument, find_failure_text(ErrorKind::InvalidArgument)),
        },
{
    contracts.get_contract(contract_id)
}

/// Whether both parties have signed the contract.
pub fn is_signed<T: ContractRepository>(contracts: &ContractServiceImpl<T>, contract_id: String) -> (r:
    Result<bool, ApiError>)
    ensures
        match r {
            Ok(signed) => signed_answer(contracts.contracts(), contract_id@) == Ok::<
                bool,
                ErrorKind,
            >(signed),
            Err(e) => signed_answer(contracts.contracts(), contract_id@) == Err::<bool, ErrorKind>(
                e.kind,
            ) && e.message@ == find_failure_text(e.kind),
        },
{
    contracts.is_signed(contract_id)
}

/// Why the operation `issue_payment` fails, if it does. In this order: the
/// caller does not pass the guard for frontend servers, whoever the seller
/// is; the address is malformed (`Internal`); the service refuses the
/// payment.
pub open spec fn issue_payment_failure(
    users: Directory,
    contracts: Contracts,
    caller: Seq<u8>,
    contract_id: Seq<char>,
    seller_principal: Seq<u8>,
    address: Seq<char>,
) -> Option<ErrorKind> {
    if access_failure(users, caller, Role::FrontendServer) is Some {
        access_failure(users, caller, Role::FrontendServer)
    } else if address_bytes(address) is None {
        Some(ErrorKind::Internal)
    } else {
        payment_failure(contracts, contract_id, seller_principal)
    }
}

/// Issues the payment of the contract to `address`, on behalf of the
/// seller. For frontend servers. On success the contract is marked as paid
/// and the order for the transfer is handed out; the caller makes the
/// transfer and settles the payment with its outcome.
pub fn issue_payment<U: UserRepository, T: ContractRepository>(
    users: &UserServiceImpl<U>,
    contracts: &mut ContractServiceImpl<T>,
    caller: &Identity,
    contract_id: String,
    seller_principal: Identity,
    address: String,
    amount: u64,
) -> (r: Result<PendingPayment, ApiError>)
    ensures
        failure_of(r) == issue_payment_failure(
            users.users(),
            old(contracts).contracts(),
            caller@,
            contract_id@,
            seller_principal@,
            address@,
        ),
        final(contracts).wallet() == old(contracts).wallet(),
        match r {
            Ok(pending) => {
                &&& final(contracts).contracts() == payment_effect_of_issue(
                    old(contracts).contracts(),
                    contract_id@,
                    seller_principal@,
                )
                &&& parse_uuid(contract_id@) == Some(pending.contract())
                &&& address_bytes(address@) is Some
                &&& is_order_for(
                    pending.transfer(),
                    old(contracts).wallet().uses_testnet(),
                    amount,
                    address_bytes(address@)->0,
                )
            },
            Err(e) => {
                &&& final(contracts).contracts() == old(contracts).contracts()
                &&& access_failure(users.users(), caller@, Role::FrontendServer) is None
                    && address_bytes(address@) is Some ==> e.message@ == payment_failure_text(
                    old(contracts).contracts(),
                    contract_id@,
                    e.kind,
                )
            },
        },
{
    match check_access(users, caller, Role::FrontendServer) {
        Ok(()) => {},
        Err(e) => {
            return Err(e);
        },
    }
    let address = match Address::parse(address.as_str()) {
        Ok(address) => address,
        Err(e) => {
            return Err(e);
        },
    };
    contracts.issue_payment(contract_id, seller_principal, address, amount)
}

/// A caller that is not registered passes no guard, nor does one that holds
/// another role, whether it is anonymous or not; and the anonymous identity
/// passes none even where it holds the role.
pub proof fn law_access_is_refused(users: Directory, caller: Seq<u8>, role: Role)
    ensures
        !users.contains_key(caller) ==> access_failure(users, caller, role) == Some(
            ErrorKind::NotFound,
        ),
        users.contains_key(caller) && users[caller].role != role ==> access_failure(
            users,
            caller,
            role,
        ) == Some(ErrorKind::PermissionDenied),
        users.contains_key(caller) && users[caller].role == role && caller == anonymous_bytes()
            ==> access_failure(users, caller, role) == Some(ErrorKind::Unauthenticated),
        access_failure(users, caller, role) is None <==> users.contains_key(caller)
            && users[caller].role == role && caller != anonymous_bytes(),
{
}

} // verus!
