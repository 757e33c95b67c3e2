//! Connection bookkeeping for the network layer.
//!
//! The manager tracks at most `max_connections` connections, each under a
//! unique identifier. The transport itself is a caller-side adapter; the
//! library owns the registry and its capacity rule.

use vstd::prelude::*;

use crate::error::Error;
use crate::timestamp::Timestamp;

verus! {

/// A tracked network connection.
#[derive(Debug)]
pub struct Connection {
    /// Unique identifier of the connection.
    pub id: String,
    /// Remote endpoint.
    pub endpoint: String,
    /// Whether the connection is live.
    pub is_active: bool,
    /// When the connection was registered.
    pub created_at: Timestamp,
}

impl Clone for Connection {
    /// An exact copy of the connection record.
    fn clone(&self) -> (r: Connection)
        ensures
            r == self,
    {
        Connection {
            id: self.id.clone(),
            endpoint: self.endpoint.clone(),
            is_active: self.is_active,
            created_at: self.created_at,
        }
    }
}

/// The subsequence of live connections, in order.
pub open spec fn active_connections_of(s: Seq<Connection>) -> Seq<Connection>
    decreases s.len(),
{
    if s.len() == 0 {
        Seq::empty()
    } else if s.last().is_active {
        active_connections_of(s.drop_last()).push(s.last())
    } else {
        active_connections_of(s.drop_last())
    }
}

/// Network manager: a registry of connections with a capacity cap.
pub struct NetworkManager {
    connections: Vec<Connection>,
    max_connections: usize,
}

impl NetworkManager {
    /// The tracked connections, in registration order.
    pub closed spec fn connections(self) -> Seq<Connection> {
        self.connections@
    }

    /// The capacity cap the manager was built with.
    pub closed spec fn max_connections(self) -> usize {
        self.max_connections
    }

    /// No two tracked connections share an identifier.
    pub open spec fn wf(self) -> bool {
        forall|i: int, j: int|
            0 <= i < j < self.connections().len() ==> self.connections()[i].id@
                != self.connections()[j].id@
    }

    /// Whether some tracked connection carries this identifier.
    pub open spec fn has_id(self, id: Seq<char>) -> bool {
        exists|i: int| 0 <= i < self.connections().len() && self.connections()[i].id@ == id
    }

    /// Create a new network manager with the given capacity.
    pub fn new(max_connections: usize) -> (r: NetworkManager)
        ensures
            r.wf(),
            r.connections().len() == 0,
            r.max_connections() == max_connections,
    {
        NetworkManager { connections: Vec::new(), max_connections }
    }

    /// Find the position of a connection by identifier.
    fn position_of(&self, id: &str) -> (r: Option<usize>)
        ensures
            r matches Some(i) ==> i < self.connections().len() && self.connections()[i as int].id@
                == id@,
            r is None ==> !self.has_id(id@),
    {
        let key = id.to_owned();
        let n = self.connections.len();
        let mut i: usize = 0;
        while i < n
            invariant
                key@ == id@,
                i <= n == self.connections().len(),
                forall|j: int| 0 <= j < i ==> self.connections()[j].id@ != id@,
            decreases n - i,
        {
            if self.connections[i].id.eq(&key) {
                return Some(i);
            }
            i = i + 1;
        }
        None
    }

    /// Register a connection. Fails when the registry is full; an existing
    /// connection under the same identifier is replaced by the fresh one.
    pub fn add_connection(&mut self, id: String, endpoint: String) -> (r: Result<(), Error>)
        requires
            old(self).wf(),
        ensures
            final(self).wf(),
            final(self).max_connections() == old(self).max_connections(),
            old(self).connections().len() >= old(self).max_connections() ==> (r matches Err(e)
                && (e matches Error::Network(m) && m@ == "Maximum connections reached"@)
                && final(self).connections() == old(self).connections()),
            old(self).connections().len() < old(self).max_connections() ==> (r is Ok
                && final(self).has_id(id@) && final(self).connections().len() == (
            if old(self).has_id(id@) {
                old(self).connections().len() as int
            } else {
                old(self).connections().len() + 1int
            }) && (exists|i: int|
                0 <= i < final(self).connections().len() && (
                #[trigger] final(self).connections()[i]).id == id && final(self).connections()[
                    i].endpoint == endpoint && final(self).connections()[i].is_active
                    && final(self).connections()[i].created_at.wf() && (forall|j: int|
                    0 <= j < final(self).connections().len() && j != i ==> final(self).connections()[j] == old(self).connections()[j]))),
    {
        if self.connections.len() >= self.max_connections {
            return Err(Error::network("Maximum connections reached"));
        }
        let timestamp = Timestamp::now();
        let fresh = Connection { id, endpoint, is_active: true, created_at: timestamp };
        let found = self.position_of(fresh.id.as_str());
        match found {
            Some(i) => {
                proof {
                    assert(forall|j: int|
                        0 <= j < old(self).connections().len() && j != i
                            ==> old(self).connections()[j].id@ != old(self).connections()[
                        i as int].id@);
                }
                self.connections.set(i, fresh);
                proof {
                    assert(self.connections()[i as int].id@ == id@);
                }
            },
            None => {
                self.connections.push(fresh);
                proof {
                    assert(self.connections()[old(self).connections().len() as int].id@ == id@);
                }
            },
        }
        Ok(())
    }

    /// Drop the connection under this identifier, if any.
    pub fn remove_connection(&mut self, id: &str) -> (r: Result<(), Error>)
        requires
            old(self).wf(),
        ensures
            final(self).wf(),
            final(self).max_connections() == old(self).max_connections(),
            r is Ok,
            !final(self).has_id(id@),
            !old(self).has_id(id@) ==> final(self).connections() == old(self).connections(),
            old(self).has_id(id@) ==> exists|i: int|
                0 <= i < old(self).connections().len() && (#[trigger] old(self).connections()[
                    i]).id@ == id@ && final(self).connections() == old(self).connections().remove(i),
    {
        let found = self.position_of(id);
        match found {
            Some(i) => {
                self.connections.remove(i);
                proof {
                    assert(forall|k: int|
                        0 <= k < self.connections().len() ==> self.connections()[k].id@ != id@);
                }
            },
            None => {},
        }
        Ok(())
    }

    /// The currently active connections, in registration order.
    pub fn get_active_connections(&self) -> (r: Vec<Connection>)
        ensures
            r@ == active_connections_of(self.connections()),
    {
        let n = self.connections.len();
        let mut r: Vec<Connection> = Vec::new();
        let mut i: usize = 0;
        while i < n
            invariant
                i <= n == self.connections().len(),
                r@ == active_connections_of(self.connections().take(i as int)),
            decreases n - i,
        {
            proof {
                let pre = self.connections().take(i as int);
                let post = self.connections().take(i as int + 1);
                assert(post.drop_last() =~= pre);
                assert(post.last() == self.connections()[i as int]);
            }
            let c = &self.connections[i];
            if c.is_active {
                r.push(c.clone());
            }
            i = i + 1;
        }
        proof {
            assert(self.connections().take(n as int) =~= self.connections());
        }
        r
    }
}

} // verus!
