//! Local storage management.
//!
//! The manager names the directory that local payloads live under; the file
//! operations themselves are caller-side adapters around it.

use vstd::prelude::*;

verus! {

/// Storage manager for handling locally persisted data.
pub struct StorageManager {
    base_path: String,
}

impl StorageManager {
    /// The directory local payloads live under.
    pub closed spec fn base_path(self) -> Seq<char> {
        self.base_path@
    }

    /// Create a new storage manager over the given directory.
    pub fn new(base_path: String) -> (r: StorageManager)
        ensures
            r.base_path() == base_path@,
    {
        StorageManager { base_path }
    }

    /// The directory local payloads live under, for the file adapters.
    pub fn base_path_str(&self) -> (r: &str)
        ensures
            r@ == self.base_path(),
    {
        self.base_path.as_str()
    }
}

} // verus!
