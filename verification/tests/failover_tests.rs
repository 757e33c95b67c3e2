//! Tests of the ordered storage failover manager and its policy.

use kova_core::blockchain::{
    first_success_index, BackendOutcome, BlockchainClient, BlockchainManager,
};
use kova_core::Error;
use std::cell::{Cell, RefCell};
use std::collections::HashMap;
use std::rc::Rc;

/// An in-memory backend: stores payloads under sequential keys.
struct MemoryBackend {
    name: String,
    available: bool,
    fail_store: bool,
    slots: Rc<RefCell<HashMap<String, Vec<u8>>>>,
    next_key: Cell<u64>,
    probes: Rc<Cell<u64>>,
    stores: Rc<Cell<u64>>,
}

impl MemoryBackend {
    fn new(name: &str, available: bool, fail_store: bool) -> MemoryBackend {
        MemoryBackend {
            name: name.to_string(),
            available,
            fail_store,
            slots: Rc::new(RefCell::new(HashMap::new())),
            next_key: Cell::new(0),
            probes: Rc::new(Cell::new(0)),
            stores: Rc::new(Cell::new(0)),
        }
    }
}

impl BlockchainClient for MemoryBackend {
    fn name(&self) -> String {
        self.name.clone()
    }

    fn is_available(&self) -> bool {
        self.probes.set(self.probes.get() + 1);
        self.available
    }

    fn store_data(&self, data: &[u8]) -> Result<String, Error> {
        self.stores.set(self.stores.get() + 1);
        if self.fail_store {
            return Err(Error::storage("simulated store failure"));
        }
        let key = format!("{}:{}", self.name, self.next_key.get());
        self.next_key.set(self.next_key.get() + 1);
        self.slots.borrow_mut().insert(key.clone(), data.to_vec());
        Ok(key)
    }

    fn retrieve_data(&self, hash: &str) -> Result<Vec<u8>, Error> {
        match self.slots.borrow().get(hash) {
            Some(data) => Ok(data.clone()),
            None => Err(Error::storage("no such key")),
        }
    }
}

#[test]
fn single_backend_round_trip() {
    let mut manager: BlockchainManager<MemoryBackend> = BlockchainManager::new();
    manager.add_client("memory".to_string(), MemoryBackend::new("memory", true, false));

    let payload = b"round trip payload \x00\x01\x02".to_vec();
    let id = manager.store_data(&payload).unwrap();
    let back = manager.retrieve_data(&id).unwrap();
    assert_eq!(back, payload);
}

#[test]
fn backends_tried_in_registration_order() {
    let mut manager: BlockchainManager<MemoryBackend> = BlockchainManager::new();
    manager.add_client("first".to_string(), MemoryBackend::new("first", false, false));
    manager.add_client("second".to_string(), MemoryBackend::new("second", true, true));
    manager.add_client("third".to_string(), MemoryBackend::new("third", true, false));

    let id = manager.store_data(b"payload").unwrap();
    assert!(id.starts_with("third:"));
}

/// A backend registered after one that succeeded is never contacted.
#[test]
fn backend_after_success_never_invoked() {
    let winner = MemoryBackend::new("winner", true, false);
    let spy = MemoryBackend::new("spy", true, false);
    let spy_probes = spy.probes.clone();
    let spy_stores = spy.stores.clone();

    let mut manager: BlockchainManager<MemoryBackend> = BlockchainManager::new();
    manager.add_client("winner".to_string(), winner);
    manager.add_client("spy".to_string(), spy);

    let id = manager.store_data(b"ordered payload").unwrap();
    assert!(id.starts_with("winner:"));
    assert_eq!(spy_probes.get(), 0);
    assert_eq!(spy_stores.get(), 0);
}

/// The aggregate error comes exactly when every backend is unavailable or
/// fails its store call.
#[test]
fn aggregate_error_iff_every_backend_fails() {
    let mut manager: BlockchainManager<MemoryBackend> = BlockchainManager::new();
    manager.add_client("down".to_string(), MemoryBackend::new("down", false, false));
    manager.add_client("broken".to_string(), MemoryBackend::new("broken", true, true));

    let err = manager.store_data(b"payload").unwrap_err();
    assert_eq!(
        err.message(),
        "Blockchain error: No available blockchain clients"
    );

    // One healthy backend is enough to avoid the aggregate error.
    manager.add_client("healthy".to_string(), MemoryBackend::new("healthy", true, false));
    assert!(manager.store_data(b"payload").is_ok());
}

#[test]
fn empty_registry_always_fails() {
    let manager: BlockchainManager<MemoryBackend> = BlockchainManager::new();
    let err = manager.store_data(b"payload").unwrap_err();
    assert_eq!(
        err.message(),
        "Blockchain error: No available blockchain clients"
    );
    let err = manager.retrieve_data("some-id").unwrap_err();
    assert_eq!(
        err.message(),
        "Blockchain error: No available blockchain clients"
    );
}

#[test]
fn retrieve_follows_the_same_order() {
    let first = MemoryBackend::new("first", true, false);
    let mut manager: BlockchainManager<MemoryBackend> = BlockchainManager::new();
    manager.add_client("first".to_string(), first);
    manager.add_client("second".to_string(), MemoryBackend::new("second", true, false));

    let id = manager.store_data(b"retained").unwrap();
    assert_eq!(manager.retrieve_data(&id).unwrap(), b"retained".to_vec());
    assert!(manager.retrieve_data("missing").is_err());
}

#[test]
fn policy_picks_first_success() {
    let outcomes: Vec<BackendOutcome<String>> = vec![
        BackendOutcome::Unavailable,
        BackendOutcome::Failed,
        BackendOutcome::Success("a".to_string()),
        BackendOutcome::Success("b".to_string()),
    ];
    assert_eq!(first_success_index(&outcomes), Some(2));

    let no_success: Vec<BackendOutcome<String>> =
        vec![BackendOutcome::Unavailable, BackendOutcome::Failed];
    assert_eq!(first_success_index(&no_success), None);

    let empty: Vec<BackendOutcome<String>> = vec![];
    assert_eq!(first_success_index(&empty), None);
}

#[test]
fn client_count_follows_registration() {
    let mut manager: BlockchainManager<MemoryBackend> = BlockchainManager::new();
    assert_eq!(manager.client_count(), 0);
    manager.add_client("one".to_string(), MemoryBackend::new("one", true, false));
    manager.add_client("two".to_string(), MemoryBackend::new("two", true, false));
    assert_eq!(manager.client_count(), 2);
}
