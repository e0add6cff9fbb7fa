//! The services over the repositories: access control, the user directory,
//! the contract lifecycle and the wallet settings.

pub mod access_control_service;
pub mod contract_service;
pub mod lifecycle;
pub mod user_service;
pub mod wallet_service;

pub use access_control_service::{AccessControlService, AccessControlServiceImpl};
pub use contract_service::{ContractService, ContractServiceImpl, PendingPayment};
pub use user_service::{UserService, UserServiceImpl};
pub use wallet_service::{
    ecdsa_key_name_of, get_ecdsa_key_name, transfer_result, Address, TransferOrder,
    WalletServiceImpl,
};
