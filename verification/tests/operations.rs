use icp_buyer_seller_contract_backend::repositories::{
    init_contracts, init_users, ApiError, ContractRepositoryImpl, ErrorKind, Identity,
    MemoryManager, Role, User, UserRepositoryImpl,
};
use icp_buyer_seller_contract_backend::services::{
    ContractService, ContractServiceImpl, UserService, UserServiceImpl, WalletServiceImpl,
};
use icp_buyer_seller_contract_backend::{
    add_permission, create_contract, get_contract, get_users, init, is_signed, issue_payment,
    remove_permission, sign_contract, try_create_contract, update_permission,
};

const DESTINATION: &str = "0x1c7d4b196cb0c7b01d743fbc6116a902379c7238";

type Users = UserServiceImpl<UserRepositoryImpl>;
type Contracts = ContractServiceImpl<ContractRepositoryImpl>;

fn identity(bytes: &[u8]) -> Identity {
    Identity::from_slice(bytes).unwrap()
}

fn admin() -> Identity {
    identity(&[0xad])
}

fn frontend() -> Identity {
    identity(&[0xfe])
}

fn buyer() -> Identity {
    identity(&[0xb0, 1])
}

fn seller() -> Identity {
    identity(&[0x5e, 2])
}

fn start() -> (Users, Contracts) {
    let manager = MemoryManager::init();
    let mut users = UserServiceImpl::new(UserRepositoryImpl::new(init_users(&manager)));
    let contracts = ContractServiceImpl::new(
        ContractRepositoryImpl::new(init_contracts(&manager)),
        WalletServiceImpl::new(true),
    );
    init(&mut users, admin()).unwrap();
    add_permission(&mut users, &admin(), frontend(), Role::FrontendServer).unwrap();
    (users, contracts)
}

fn kind_of<T: std::fmt::Debug>(result: Result<T, ApiError>) -> ErrorKind {
    result.unwrap_err().kind()
}

#[test]
fn init_registers_the_first_admin_once() {
    let mut users = UserServiceImpl::new(UserRepositoryImpl::new(init_users(&MemoryManager::init())));
    assert_eq!(init(&mut users, admin()), Ok(()));
    assert_eq!(users.get_user_by_principal(&admin()), Ok(()));
    assert_eq!(get_users(&users, &admin()).unwrap().len(), 1);
    assert_eq!(kind_of(init(&mut users, admin())), ErrorKind::Conflict);
}

#[test]
fn only_admins_change_the_directory() {
    let (mut users, _) = start();
    let someone = identity(&[1]);
    for caller in [frontend(), someone.clone()] {
        let expected =
            if caller == frontend() { ErrorKind::PermissionDenied } else { ErrorKind::NotFound };
        assert_eq!(kind_of(add_permission(&mut users, &caller, identity(&[2]), Role::Admin)), expected);
        assert_eq!(kind_of(remove_permission(&mut users, &caller, &frontend())), expected);
        assert_eq!(kind_of(update_permission(&mut users, &caller, frontend(), Role::Admin)), expected);
        assert_eq!(kind_of(get_users(&users, &caller)), expected);
    }
    assert_eq!(get_users(&users, &admin()).unwrap().len(), 2);
    assert_eq!(users.get_user_by_principal(&identity(&[2])).unwrap_err().kind(), ErrorKind::NotFound);
}

#[test]
fn role_is_looked_at_before_the_anonymous_caller_is_turned_away() {
    let (mut users, mut contracts) = start();
    let anonymous = Identity::anonymous();
    let id = create_contract(&mut contracts, "{}".to_string(), buyer(), seller(), 10).to_text();
    sign_contract(&mut contracts, buyer(), id.clone()).unwrap();
    sign_contract(&mut contracts, seller(), id.clone()).unwrap();
    let pay = |users: &Users, contracts: &mut Contracts, caller: &Identity| {
        issue_payment(users, contracts, caller, id.clone(), seller(), DESTINATION.to_string(), 1)
    };

    // not registered: not found, as for any other caller
    assert_eq!(
        kind_of(add_permission(&mut users, &anonymous, identity(&[2]), Role::Admin)),
        ErrorKind::NotFound
    );
    assert_eq!(kind_of(remove_permission(&mut users, &anonymous, &frontend())), ErrorKind::NotFound);
    assert_eq!(
        kind_of(update_permission(&mut users, &anonymous, frontend(), Role::Admin)),
        ErrorKind::NotFound
    );
    assert_eq!(kind_of(pay(&users, &mut contracts, &anonymous)), ErrorKind::NotFound);

    // registered as admin: turned away from what admins may do, denied the rest
    update_permission(&mut users, &admin(), Identity::anonymous(), Role::Admin).unwrap();
    assert_eq!(
        kind_of(add_permission(&mut users, &anonymous, identity(&[2]), Role::Admin)),
        ErrorKind::Unauthenticated
    );
    assert_eq!(
        kind_of(remove_permission(&mut users, &anonymous, &frontend())),
        ErrorKind::Unauthenticated
    );
    assert_eq!(
        kind_of(update_permission(&mut users, &anonymous, frontend(), Role::Admin)),
        ErrorKind::Unauthenticated
    );
    assert_eq!(kind_of(pay(&users, &mut contracts, &anonymous)), ErrorKind::PermissionDenied);

    // registered as frontend server: turned away from the payment
    update_permission(&mut users, &admin(), Identity::anonymous(), Role::FrontendServer).unwrap();
    assert_eq!(kind_of(pay(&users, &mut contracts, &anonymous)), ErrorKind::Unauthenticated);
    assert_eq!(
        kind_of(add_permission(&mut users, &anonymous, identity(&[2]), Role::Admin)),
        ErrorKind::PermissionDenied
    );

    assert_eq!(get_users(&users, &admin()).unwrap().len(), 3);
    assert!(!get_contract(&contracts, id).unwrap().unwrap().issued_payment);
}

#[test]
fn payment_asks_for_the_frontend_whoever_the_seller_is() {
    let (users, mut contracts) = start();
    let id = create_contract(&mut contracts, "{}".to_string(), buyer(), seller(), 10).to_text();
    sign_contract(&mut contracts, buyer(), id.clone()).unwrap();
    sign_contract(&mut contracts, seller(), id.clone()).unwrap();
    for party in [seller(), buyer(), identity(&[9])] {
        for (caller, expected) in [
            (identity(&[1]), ErrorKind::NotFound),
            (seller(), ErrorKind::NotFound),
            (admin(), ErrorKind::PermissionDenied),
        ] {
            let result = issue_payment(
                &users,
                &mut contracts,
                &caller,
                id.clone(),
                party.clone(),
                DESTINATION.to_string(),
                100,
            );
            assert_eq!(kind_of(result), expected);
            assert!(!get_contract(&contracts, id.clone()).unwrap().unwrap().issued_payment);
        }
    }
}

#[test]
fn admin_adds_updates_and_removes() {
    let (mut users, _) = start();
    assert_eq!(add_permission(&mut users, &admin(), identity(&[2]), Role::Admin), Ok(()));
    assert_eq!(
        kind_of(add_permission(&mut users, &admin(), identity(&[2]), Role::FrontendServer)),
        ErrorKind::Conflict
    );
    assert_eq!(add_permission(&mut users, &identity(&[2]), identity(&[3]), Role::Admin), Ok(()));
    assert_eq!(update_permission(&mut users, &admin(), identity(&[2]), Role::FrontendServer), Ok(()));
    assert_eq!(
        kind_of(add_permission(&mut users, &identity(&[2]), identity(&[4]), Role::Admin)),
        ErrorKind::PermissionDenied
    );
    assert_eq!(update_permission(&mut users, &admin(), identity(&[5]), Role::Admin), Ok(()));
    assert_eq!(remove_permission(&mut users, &admin(), &identity(&[2])), Ok(()));
    assert_eq!(kind_of(remove_permission(&mut users, &admin(), &identity(&[2]))), ErrorKind::NotFound);
    let mut listed: Vec<(Vec<u8>, User)> = get_users(&users, &admin())
        .unwrap()
        .iter()
        .map(|(id, user)| (id.as_slice().to_vec(), *user))
        .collect();
    listed.sort_by(|a, b| a.0.cmp(&b.0));
    assert_eq!(
        listed,
        vec![
            (vec![3], User::new(Role::Admin)),
            (vec![5], User::new(Role::Admin)),
            (vec![0xad], User::new(Role::Admin)),
            (vec![0xfe], User::new(Role::FrontendServer)),
        ]
    );
}

#[test]
fn admin_that_removes_itself_is_locked_out() {
    let (mut users, _) = start();
    assert_eq!(remove_permission(&mut users, &admin(), &admin()), Ok(()));
    assert_eq!(
        kind_of(add_permission(&mut users, &admin(), admin(), Role::Admin)),
        ErrorKind::NotFound
    );
}

#[test]
fn anyone_creates_and_parties_sign() {
    let (_, mut contracts) = start();
    let id = create_contract(&mut contracts, "{}".to_string(), buyer(), seller(), 10).to_text();
    assert_eq!(is_signed(&contracts, id.clone()), Ok(false));
    assert_eq!(
        kind_of(sign_contract(&mut contracts, admin(), id.clone())),
        ErrorKind::PermissionDenied
    );
    assert_eq!(sign_contract(&mut contracts, buyer(), id.clone()), Ok(()));
    assert_eq!(sign_contract(&mut contracts, seller(), id.clone()), Ok(()));
    assert_eq!(is_signed(&contracts, id.clone()), Ok(true));
    let contract = get_contract(&contracts, id).unwrap().unwrap();
    assert!(contract.is_signed());
    assert_eq!(contract.created_at, 10);
    assert_eq!(get_contract(&contracts, "00000000-0000-0000-0000-00000000000f".to_string()), Ok(None));
    assert_eq!(kind_of(get_contract(&contracts, "f".to_string())), ErrorKind::InvalidArgument);
    assert_eq!(kind_of(is_signed(&contracts, "f".to_string())), ErrorKind::InvalidArgument);
}

#[test]
fn try_create_contract_creates_while_an_id_is_free() {
    let (_, mut contracts) = start();
    let first = try_create_contract(&mut contracts, "a".to_string(), buyer(), seller(), 1).unwrap();
    let second = try_create_contract(&mut contracts, "b".to_string(), buyer(), seller(), 2).unwrap();
    assert_eq!(first.as_u128(), 0);
    assert_eq!(second.as_u128(), 1);
    assert_eq!(get_contract(&contracts, second.to_text()).unwrap().unwrap().contract_json, "b");
}

#[test]
fn payment_is_for_the_frontend_on_behalf_of_the_seller() {
    let (users, mut contracts) = start();
    let id = create_contract(&mut contracts, "{}".to_string(), buyer(), seller(), 10).to_text();
    sign_contract(&mut contracts, buyer(), id.clone()).unwrap();
    sign_contract(&mut contracts, seller(), id.clone()).unwrap();
    let request = |contracts: &mut Contracts, caller: &Identity, party: Identity, address: &str| {
        issue_payment(&users, contracts, caller, id.clone(), party, address.to_string(), 100)
    };
    assert_eq!(kind_of(request(&mut contracts, &seller(), seller(), DESTINATION)), ErrorKind::NotFound);
    assert_eq!(
        kind_of(request(&mut contracts, &admin(), seller(), DESTINATION)),
        ErrorKind::PermissionDenied
    );
    assert_eq!(kind_of(request(&mut contracts, &frontend(), seller(), "0x12")), ErrorKind::Internal);
    assert_eq!(
        kind_of(request(&mut contracts, &frontend(), buyer(), DESTINATION)),
        ErrorKind::PermissionDenied
    );
    assert!(!get_contract(&contracts, id.clone()).unwrap().unwrap().issued_payment);

    let pending = request(&mut contracts, &frontend(), seller(), DESTINATION).unwrap();
    assert_eq!(pending.order().amount, 100);
    assert_eq!(pending.order().to.as_slice()[0], 0x1c);
    assert!(get_contract(&contracts, id.clone()).unwrap().unwrap().issued_payment);
    let error = contracts.settle_payment(pending, Err(ApiError::internal("network"))).unwrap_err();
    assert_eq!(error.kind(), ErrorKind::Internal);
    assert_eq!(error.message(), "Transfer failed: network");
    assert!(!get_contract(&contracts, id.clone()).unwrap().unwrap().issued_payment);

    let pending = request(&mut contracts, &frontend(), seller(), DESTINATION).unwrap();
    assert_eq!(contracts.settle_payment(pending, Ok("done".to_string())), Ok(()));
    let error = request(&mut contracts, &frontend(), seller(), DESTINATION).unwrap_err();
    assert_eq!(error.kind(), ErrorKind::FailedPrecondition);
    assert_eq!(error.message(), "already issued");
}

#[test]
fn malformed_address_is_refused_before_the_contract_is_looked_up() {
    let (users, mut contracts) = start();
    assert_eq!(
        kind_of(issue_payment(
            &users,
            &mut contracts,
            &frontend(),
            "no id".to_string(),
            seller(),
            "no address".to_string(),
            1
        )),
        ErrorKind::Internal
    );
    assert_eq!(
        kind_of(issue_payment(
            &users,
            &mut contracts,
            &frontend(),
            "no id".to_string(),
            seller(),
            DESTINATION.to_string(),
            1
        )),
        ErrorKind::InvalidArgument
    );
}
