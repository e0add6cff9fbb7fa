//! The stable memory and the two maps that live in it.

pub mod contract_memory;
pub mod memory_manager;
pub mod user_memory;

pub use contract_memory::{init_contracts, ContractMemory};
pub use memory_manager::{MemoryManager, CONTRACTS_MEMORY_ID, USERS_MEMORY_ID};
pub use user_memory::{init_users, UserMemory};
