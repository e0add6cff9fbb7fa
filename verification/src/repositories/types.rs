//! The values that the repositories store and hand out.

pub mod api_error;
pub mod contract;
pub mod identity;
pub mod user;
pub mod uuid;

pub use api_error::{ApiError, ErrorKind};
pub use contract::{Contract, ContractSignatories, ContractView};
pub use identity::Identity;
pub use user::{Role, User};
pub use uuid::Uuid;
