//! The manager that divides the stable memory into regions, one for each map.

use ic_stable_structures::DefaultMemoryImpl;
use vstd::prelude::*;

verus! {

// The ids are kept together so that no id is used twice.
/// The region that holds the contracts.
pub const CONTRACTS_MEMORY_ID: u8 = 0;

/// The region that holds the users.
pub const USERS_MEMORY_ID: u8 = 1;

/// The manager of the stable memory: an
/// `ic_stable_structures::memory_manager::MemoryManager` over the default
/// memory. Nothing is stated of it; it is handed to the functions that open
/// the maps.
#[verifier::external_body]
pub struct MemoryManager {
    pub(crate) inner: ic_stable_structures::memory_manager::MemoryManager<DefaultMemoryImpl>,
}

impl MemoryManager {
    /// The manager over the default stable memory, made by
    /// `ic_stable_structures::memory_manager::MemoryManager::init`. What its
    /// regions hold depends on what the memory held, so nothing is promised.
    /// It panics where the memory holds a manager of a version that the
    /// outside crate does not know. One manager serves both maps: a second
    /// one over the same memory would not see what the first one allots.
    #[verifier::external_body]
    pub fn init() -> MemoryManager {
        MemoryManager {
            inner: ic_stable_structures::memory_manager::MemoryManager::init(
                DefaultMemoryImpl::default(),
            ),
        }
    }
}

} // verus!
