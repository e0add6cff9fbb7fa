//! Records, the stable maps that hold them, and the repositories over those maps.

pub mod contract_repository;
pub mod memories;
pub mod types;
pub mod user_repository;

pub use contract_repository::{ContractRepository, ContractRepositoryImpl, Signer};
pub use memories::{init_contracts, init_users, ContractMemory, MemoryManager, UserMemory};
pub use types::{
    ApiError, Contract, ContractSignatories, ContractView, ErrorKind, Identity, Role, User, Uuid,
};
pub use user_repository::{UserRepository, UserRepositoryImpl};
