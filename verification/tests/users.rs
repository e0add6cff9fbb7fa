use icp_buyer_seller_contract_backend::repositories::{
    init_users, ErrorKind, Identity, MemoryManager, Role, User, UserRepository,
    UserRepositoryImpl,
};
use icp_buyer_seller_contract_backend::services::{
    AccessControlService, AccessControlServiceImpl, UserService, UserServiceImpl,
};

fn identity(bytes: &[u8]) -> Identity {
    Identity::from_slice(bytes).unwrap()
}

fn new_repository() -> UserRepositoryImpl {
    UserRepositoryImpl::new(init_users(&MemoryManager::init()))
}

fn sorted(mut list: Vec<(Identity, User)>) -> Vec<(Vec<u8>, Role)> {
    let mut plain: Vec<(Vec<u8>, Role)> =
        list.drain(..).map(|(id, user)| (id.as_slice().to_vec(), user.role)).collect();
    plain.sort_by(|a, b| a.0.cmp(&b.0));
    plain
}

#[test]
fn fresh_directory_is_empty() {
    let repository = new_repository();
    assert!(repository.list_users().is_empty());
    assert_eq!(repository.get_user_by_principal(&identity(&[1])), None);
}

#[test]
fn created_user_is_found() {
    let mut repository = new_repository();
    assert_eq!(repository.create_user(identity(&[1]), User::new(Role::Admin)), Ok(()));
    assert_eq!(repository.get_user_by_principal(&identity(&[1])), Some(User::new(Role::Admin)));
    assert_eq!(repository.get_user_by_principal(&identity(&[2])), None);
    assert_eq!(repository.get_user_by_principal(&identity(&[1, 0])), None);
}

#[test]
fn frontend_role_is_stored_and_read_back() {
    let mut repository = new_repository();
    repository.create_user(identity(&[8]), User::new(Role::FrontendServer)).unwrap();
    assert_eq!(
        repository.get_user_by_principal(&identity(&[8])),
        Some(User::new(Role::FrontendServer))
    );
}

#[test]
fn create_user_twice_is_a_conflict() {
    let mut repository = new_repository();
    repository.create_user(identity(&[1]), User::new(Role::Admin)).unwrap();
    let error = repository.create_user(identity(&[1]), User::new(Role::FrontendServer)).unwrap_err();
    assert_eq!(error.kind(), ErrorKind::Conflict);
    assert_eq!(error.message(), "User already exists");
    assert_eq!(repository.get_user_by_principal(&identity(&[1])), Some(User::new(Role::Admin)));
    assert_eq!(repository.list_users().len(), 1);
}

#[test]
fn remove_unknown_user_is_not_found() {
    let mut repository = new_repository();
    repository.create_user(identity(&[1]), User::new(Role::Admin)).unwrap();
    let error = repository.remove_user(&identity(&[2])).unwrap_err();
    assert_eq!(error.kind(), ErrorKind::NotFound);
    assert_eq!(error.message(), "User not found");
    assert_eq!(repository.list_users().len(), 1);
}

#[test]
fn removed_user_is_absent() {
    let mut repository = new_repository();
    repository.create_user(identity(&[1]), User::new(Role::Admin)).unwrap();
    repository.create_user(identity(&[2]), User::new(Role::FrontendServer)).unwrap();
    assert_eq!(repository.remove_user(&identity(&[1])), Ok(()));
    assert_eq!(repository.get_user_by_principal(&identity(&[1])), None);
    assert_eq!(
        repository.get_user_by_principal(&identity(&[2])),
        Some(User::new(Role::FrontendServer))
    );
    assert_eq!(repository.remove_user(&identity(&[1])).unwrap_err().kind(), ErrorKind::NotFound);
    assert_eq!(repository.create_user(identity(&[1]), User::new(Role::Admin)), Ok(()));
}

#[test]
fn update_user_overwrites_and_inserts() {
    let mut repository = new_repository();
    assert_eq!(repository.update_user(identity(&[1]), User::new(Role::Admin)), Ok(()));
    assert_eq!(repository.get_user_by_principal(&identity(&[1])), Some(User::new(Role::Admin)));
    assert_eq!(repository.update_user(identity(&[1]), User::new(Role::FrontendServer)), Ok(()));
    assert_eq!(
        repository.get_user_by_principal(&identity(&[1])),
        Some(User::new(Role::FrontendServer))
    );
    assert_eq!(repository.list_users().len(), 1);
}

#[test]
fn list_users_holds_every_user_once() {
    let mut repository = new_repository();
    repository.create_user(identity(&[3]), User::new(Role::Admin)).unwrap();
    repository.create_user(identity(&[1, 1]), User::new(Role::FrontendServer)).unwrap();
    repository.create_user(identity(&[]), User::new(Role::Admin)).unwrap();
    repository.update_user(identity(&[3]), User::new(Role::FrontendServer)).unwrap();
    assert_eq!(
        sorted(repository.list_users()),
        vec![
            (vec![], Role::Admin),
            (vec![1, 1], Role::FrontendServer),
            (vec![3], Role::FrontendServer),
        ]
    );
}

#[test]
fn list_users_is_in_the_order_of_the_principals() {
    let mut repository = new_repository();
    for bytes in [&[3u8][..], &[1, 1], &[], &[2], &[0, 0, 0], &[1, 0]] {
        repository.create_user(identity(bytes), User::new(Role::Admin)).unwrap();
    }
    let listed: Vec<Vec<u8>> =
        repository.list_users().iter().map(|(id, _)| id.as_slice().to_vec()).collect();
    assert_eq!(listed, vec![vec![], vec![2], vec![3], vec![1, 0], vec![1, 1], vec![0, 0, 0]]);
}

#[test]
fn two_stores_of_one_manager_do_not_mix() {
    let manager = MemoryManager::init();
    let mut users = UserRepositoryImpl::new(init_users(&manager));
    let contracts = icp_buyer_seller_contract_backend::repositories::init_contracts(&manager);
    users.create_user(identity(&[1]), User::new(Role::Admin)).unwrap();
    let repository =
        icp_buyer_seller_contract_backend::repositories::ContractRepositoryImpl::new(contracts);
    assert!(repository.has_free_id());
    assert_eq!(users.list_users().len(), 1);
}

#[test]
fn store_is_reopened_with_its_users() {
    let manager = MemoryManager::init();
    let mut first = UserRepositoryImpl::new(init_users(&manager));
    first.create_user(identity(&[1]), User::new(Role::Admin)).unwrap();
    drop(first);
    let second = UserRepositoryImpl::new(init_users(&manager));
    assert_eq!(second.get_user_by_principal(&identity(&[1])), Some(User::new(Role::Admin)));
}

#[test]
fn unregistered_identity_fails_both_role_checks_with_not_found() {
    let repository = new_repository();
    let guard = AccessControlServiceImpl::new(&repository);
    let stranger = identity(&[9]);
    let error = guard.assert_principal_is_admin(&stranger).unwrap_err();
    assert_eq!(error.kind(), ErrorKind::NotFound);
    assert_eq!(
        error.message(),
        format!("Principal {} must be admin to call this endpoint", stranger.to_text())
    );
    let error = guard.assert_principal_is_frontend(&stranger).unwrap_err();
    assert_eq!(error.kind(), ErrorKind::NotFound);
    assert_eq!(
        error.message(),
        format!(
            "{} not authorized. Only frontend server principals can call this endpoint.",
            stranger.to_text()
        )
    );
}

#[test]
fn admin_passes_the_admin_check_only() {
    let mut repository = new_repository();
    repository.create_user(identity(&[1]), User::new(Role::Admin)).unwrap();
    let guard = AccessControlServiceImpl::new(&repository);
    assert_eq!(guard.assert_principal_is_admin(&identity(&[1])), Ok(()));
    let error = guard.assert_principal_is_frontend(&identity(&[1])).unwrap_err();
    assert_eq!(error.kind(), ErrorKind::PermissionDenied);
    assert_eq!(
        error.message(),
        format!(
            "{} not authorized. Only frontend server principals can call this endpoint.",
            identity(&[1]).to_text()
        )
    );
}

#[test]
fn frontend_passes_the_frontend_check_only() {
    let mut repository = new_repository();
    repository.create_user(identity(&[2]), User::new(Role::FrontendServer)).unwrap();
    let guard = AccessControlServiceImpl::new(&repository);
    assert_eq!(guard.assert_principal_is_frontend(&identity(&[2])), Ok(()));
    let error = guard.assert_principal_is_admin(&identity(&[2])).unwrap_err();
    assert_eq!(error.kind(), ErrorKind::PermissionDenied);
    assert_eq!(
        error.message(),
        format!("Principal {} must be an admin to call this endpoint", identity(&[2]).to_text())
    );
}

#[test]
fn anonymous_is_unauthenticated() {
    let repository = new_repository();
    let guard = AccessControlServiceImpl::new(&repository);
    let error = guard.assert_principal_not_anonymous(&Identity::anonymous()).unwrap_err();
    assert_eq!(error.kind(), ErrorKind::Unauthenticated);
    assert_eq!(guard.assert_principal_not_anonymous(&identity(&[1])), Ok(()));
    assert_eq!(guard.assert_principal_not_anonymous(&identity(&[])), Ok(()));
}

#[test]
fn user_service_passes_on_to_the_repository() {
    let mut service = UserServiceImpl::new(new_repository());
    assert_eq!(service.create_user(identity(&[1]), User::new(Role::Admin)), Ok(()));
    assert_eq!(
        service.create_user(identity(&[1]), User::new(Role::Admin)).unwrap_err().kind(),
        ErrorKind::Conflict
    );
    assert_eq!(service.get_user_by_principal(&identity(&[1])), Ok(()));
    let error = service.get_user_by_principal(&identity(&[2])).unwrap_err();
    assert_eq!(error.kind(), ErrorKind::NotFound);
    assert_eq!(
        error.message(),
        format!("User with principal {} not found", identity(&[2]).to_text())
    );
    assert_eq!(service.update_user(identity(&[2]), User::new(Role::FrontendServer)), Ok(()));
    assert_eq!(service.list_users().len(), 2);
    assert_eq!(service.remove_user(&identity(&[1])), Ok(()));
    assert_eq!(service.remove_user(&identity(&[1])).unwrap_err().kind(), ErrorKind::NotFound);
    assert_eq!(
        service.repository().get_user_by_principal(&identity(&[2])),
        Some(User::new(Role::FrontendServer))
    );
}
