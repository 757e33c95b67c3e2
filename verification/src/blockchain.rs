//! Ordered storage failover across blockchain backends.
//!
//! The manager holds an ordered registry of storage backends and tries them
//! strictly in registration order: skip a backend whose availability probe
//! fails, try its store or retrieve call otherwise, stop at the first
//! success, and surface a single aggregate error only when every backend was
//! unavailable or failed. A backend after the first success is never
//! contacted, and nothing is ever written twice.
//!
//! The failover policy itself is a pure function over per-backend outcomes,
//! with its ordering guarantees stated as contracts; the manager's store and
//! retrieve loops follow it and additionally report, as a ghost log, the
//! outcome of every backend they contacted.

use vstd::prelude::*;

use crate::contribution::{contribution_encoding, Contribution};
use crate::error::Error;

verus! {

/// The aggregate error message when every backend was unavailable or failed.
pub open spec fn exhausted_message() -> Seq<char> {
    "No available blockchain clients"@
}

/// A storage backend capability. Implementations live outside the library
/// (an RPC node, a pinning service, a gateway); the manager assumes nothing
/// about them beyond these signatures, and its guarantees hold whatever they
/// return.
pub trait BlockchainClient {
    /// The backend's name.
    fn name(&self) -> String;

    /// Probe whether the backend is currently available.
    fn is_available(&self) -> bool;

    /// Store a payload, returning an opaque content identifier.
    fn store_data(&self, data: &[u8]) -> Result<String, Error>;

    /// Retrieve a payload by its content identifier.
    fn retrieve_data(&self, hash: &str) -> Result<Vec<u8>, Error>;
}

/// What one contacted backend did with one attempt.
#[derive(Clone, Debug)]
pub enum BackendOutcome<T> {
    /// The availability probe said no; the backend was skipped.
    Unavailable,
    /// The backend was available but its call returned an error.
    Failed,
    /// The backend accepted the call and returned this value.
    Success(T),
}

impl<T> BackendOutcome<T> {
    /// Whether this outcome is a success.
    pub open spec fn is_success(self) -> bool {
        self matches BackendOutcome::Success(_)
    }
}

/// No outcome strictly before position `i` is a success.
pub open spec fn no_success_before<T>(s: Seq<BackendOutcome<T>>, i: int) -> bool {
    forall|j: int| 0 <= j < i ==> !s[j].is_success()
}

/// The position of the first success among the outcomes, scanning from
/// position `i`.
pub open spec fn first_success_from<T>(s: Seq<BackendOutcome<T>>, i: int) -> Option<int>
    decreases s.len() - i,
{
    if i < 0 || i >= s.len() {
        None
    } else if s[i].is_success() {
        Some(i)
    } else {
        first_success_from(s, i + 1)
    }
}

/// The failover policy: given the outcomes of the backends in registration
/// order, the chosen backend is the first success; every backend before it
/// was unavailable or failed, and none after it matters.
pub fn first_success_index<T>(outcomes: &Vec<BackendOutcome<T>>) -> (r: Option<usize>)
    ensures
        r == match first_success_from(outcomes@, 0) {
            Some(i) => Some(i as usize),
            None => None::<usize>,
        },
        r matches Some(i) ==> i < outcomes@.len() && outcomes@[i as int].is_success()
            && no_success_before(outcomes@, i as int),
        r is None ==> no_success_before(outcomes@, outcomes@.len() as int),
{
    let n = outcomes.len();
    let mut i: usize = 0;
    while i < n
        invariant
            i <= n == outcomes@.len(),
            no_success_before(outcomes@, i as int),
            first_success_from(outcomes@, 0) == first_success_from(outcomes@, i as int),
        decreases n - i,
    {
        if matches!(&outcomes[i], BackendOutcome::Success(_)) {
            return Some(i);
        }
        i = i + 1;
    }
    None
}

/// The policy never looks past the first success: two outcome sequences that
/// agree up to and including the first success of one are resolved the same
/// way, so a backend registered after one that succeeded can never influence
/// the result.
pub proof fn lemma_failover_ignores_later_outcomes<T>(
    a: Seq<BackendOutcome<T>>,
    b: Seq<BackendOutcome<T>>,
    i: int,
)
    requires
        first_success_from(a, 0) == Some(i),
        b.len() >= i + 1,
        forall|j: int| 0 <= j <= i ==> a[j] == b[j],
    ensures
        first_success_from(b, 0) == Some(i),
{
    lemma_first_success_properties(a, 0);
    lemma_agreeing_prefix(a, b, i, 0);
}

proof fn lemma_agreeing_prefix<T>(a: Seq<BackendOutcome<T>>, b: Seq<BackendOutcome<T>>, i: int, k: int)
    requires
        0 <= k <= i,
        first_success_from(a, k) == Some(i),
        i < a.len(),
        b.len() >= i + 1,
        forall|j: int| 0 <= j <= i ==> a[j] == b[j],
    ensures
        first_success_from(b, k) == Some(i),
    decreases i - k,
{
    lemma_first_success_properties(a, k);
    if k == i {
        assert(a[k].is_success());
        assert(b[k].is_success());
    } else {
        assert(!a[k].is_success());
        assert(!b[k].is_success());
        lemma_agreeing_prefix(a, b, i, k + 1);
    }
}

/// What a result of the first-success scan means, position by position.
pub proof fn lemma_first_success_properties<T>(s: Seq<BackendOutcome<T>>, k: int)
    requires
        0 <= k,
    ensures
        first_success_from(s, k) matches Some(i) ==> k <= i < s.len() && s[i].is_success()
            && (forall|j: int| k <= j < i ==> !s[j].is_success()),
        first_success_from(s, k) is None ==> forall|j: int| k <= j < s.len() ==> !s[j].is_success(),
    decreases s.len() - k,
{
    if k < s.len() && !s[k].is_success() {
        lemma_first_success_properties(s, k + 1);
    }
}

/// Ordered registry of storage backends with sequential failover.
///
/// The registry is populated during a configuration phase and treated as
/// read-only afterwards; registration takes exclusive access, store and
/// retrieve only shared access.
pub struct BlockchainManager<B: BlockchainClient> {
    clients: Vec<(String, B)>,
}

impl<B: BlockchainClient> BlockchainManager<B> {
    /// The registry in registration order: each backend under the name it
    /// was registered with.
    pub closed spec fn registry(self) -> Seq<(String, B)> {
        self.clients@
    }

    /// Create a new manager with an empty registry.
    pub fn new() -> (r: BlockchainManager<B>)
        ensures
            r.registry().len() == 0,
    {
        BlockchainManager { clients: Vec::new() }
    }

    /// Register a backend at the end of the registry. Registration order is
    /// the failover order, always.
    pub fn add_client(&mut self, name: String, client: B)
        ensures
            final(self).registry() == old(self).registry().push((name, client)),
    {
        self.clients.push((name, client));
    }

    /// How many backends are registered.
    pub fn client_count(&self) -> (r: usize)
        ensures
            r == self.registry().len(),
    {
        self.clients.len()
    }

    /// Store a payload through the first backend that accepts it, trying
    /// backends strictly in registration order. Beside the result, the ghost
    /// log reports the outcome of every backend that was contacted: on
    /// success the log ends at the storing backend, with every earlier
    /// backend unavailable or failed and no later backend contacted; on the
    /// aggregate error every registered backend is in the log and none
    /// succeeded.
    pub fn store_data_logged(&self, data: &[u8]) -> (r: (
        Result<String, Error>,
        Ghost<Seq<BackendOutcome<String>>>,
    ))
        ensures
            r.1@.len() <= self.registry().len(),
            match r.0 {
                Ok(hash) => {
                    &&& r.1@.len() >= 1
                    &&& r.1@.last() == BackendOutcome::Success(hash)
                    &&& no_success_before(r.1@, r.1@.len() - 1)
                },
                Err(e) => {
                    &&& r.1@.len() == self.registry().len()
                    &&& no_success_before(r.1@, r.1@.len() as int)
                    &&& e matches Error::Blockchain(m) && m@ == exhausted_message()
                },
            },
    {
        let ghost mut log: Seq<BackendOutcome<String>> = Seq::empty();
        let n = self.clients.len();
        let mut i: usize = 0;
        while i < n
            invariant
                i <= n == self.registry().len(),
                log.len() == i,
                no_success_before(log, i as int),
            decreases n - i,
        {
            let client = &self.clients[i].1;
            if client.is_available() {
                match client.store_data(data) {
                    Ok(hash) => {
                        proof {
                            log = log.push(BackendOutcome::Success(hash));
                        }
                        return (Ok(hash), Ghost(log));
                    },
                    Err(_) => {
                        proof {
                            log = log.push(BackendOutcome::Failed);
                        }
                    },
                }
            } else {
                proof {
                    log = log.push(BackendOutcome::Unavailable);
                }
            }
            i = i + 1;
        }
        (Err(Error::blockchain("No available blockchain clients")), Ghost(log))
    }

    /// Store a payload through the first available backend, in registration
    /// order. Fails only with the aggregate error, and only when every
    /// registered backend was unavailable or failed its store call; with an
    /// empty registry it always fails.
    pub fn store_data(&self, data: &[u8]) -> (r: Result<String, Error>)
        ensures
            r matches Err(e) ==> e matches Error::Blockchain(m) && m@ == exhausted_message(),
            self.registry().len() == 0 ==> r is Err,
        {
        let (result, _log) = self.store_data_logged(data);
        result
    }

    /// Retrieve a payload through the first backend that returns it, trying
    /// backends strictly in registration order, with the same ghost log as
    /// the store path. A retrieve may be served by a different backend than
    /// the one that stored the data.
    pub fn retrieve_data_logged(&self, hash: &str) -> (r: (
        Result<Vec<u8>, Error>,
        Ghost<Seq<BackendOutcome<Vec<u8>>>>,
    ))
        ensures
            r.1@.len() <= self.registry().len(),
            match r.0 {
                Ok(data) => {
                    &&& r.1@.len() >= 1
                    &&& r.1@.last() == BackendOutcome::Success(data)
                    &&& no_success_before(r.1@, r.1@.len() - 1)
                },
                Err(e) => {
                    &&& r.1@.len() == self.registry().len()
                    &&& no_success_before(r.1@, r.1@.len() as int)
                    &&& e matches Error::Blockchain(m) && m@ == exhausted_message()
                },
            },
    {
        let ghost mut log: Seq<BackendOutcome<Vec<u8>>> = Seq::empty();
        let n = self.clients.len();
        let mut i: usize = 0;
        while i < n
            invariant
                i <= n == self.registry().len(),
                log.len() == i,
                no_success_before(log, i as int),
            decreases n - i,
        {
            let client = &self.clients[i].1;
            if client.is_available() {
                match client.retrieve_data(hash) {
                    Ok(data) => {
                        proof {
                            log = log.push(BackendOutcome::Success(data));
                        }
                        return (Ok(data), Ghost(log));
                    },
                    Err(_) => {
                        proof {
                            log = log.push(BackendOutcome::Failed);
                        }
                    },
                }
            } else {
                proof {
                    log = log.push(BackendOutcome::Unavailable);
                }
            }
            i = i + 1;
        }
        (Err(Error::blockchain("No available blockchain clients")), Ghost(log))
    }

    /// Retrieve a payload through the first available backend, in
    /// registration order.
    pub fn retrieve_data(&self, hash: &str) -> (r: Result<Vec<u8>, Error>)
        ensures
            r matches Err(e) ==> e matches Error::Blockchain(m) && m@ == exhausted_message(),
            self.registry().len() == 0 ==> r is Err,
    {
        let (result, _log) = self.retrieve_data_logged(hash);
        result
    }

    /// Serialize a contribution to its canonical byte form and store those
    /// bytes through the failover path; the returned identifier is the
    /// transaction hash of the submission.
    pub fn submit_contribution(&self, contribution: &Contribution) -> (r: Result<String, Error>)
        requires
            contribution.wf(),
        ensures
            r matches Err(e) ==> e matches Error::Blockchain(m) && m@ == exhausted_message(),
            self.registry().len() == 0 ==> r is Err,
    {
        let data = contribution.to_canonical_bytes();
        self.store_data(data.as_slice())
    }
}

} // verus!
