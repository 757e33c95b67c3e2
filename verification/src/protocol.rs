//! Communication protocols and their registry.
//!
//! A protocol is a capability implemented outside the library (a transport
//! with its own wire format); the manager tracks registered protocols by
//! name.

use vstd::prelude::*;

use crate::error::Error;
use crate::timestamp::Timestamp;

verus! {

/// A message carried by some protocol.
#[derive(Debug)]
pub struct Message {
    /// Unique message identifier.
    pub id: String,
    /// Name of the protocol that carries the message.
    pub protocol: String,
    /// Payload bytes.
    pub data: Vec<u8>,
    /// When the message was created.
    pub timestamp: Timestamp,
}

impl Clone for Message {
    /// An exact copy of the message.
    fn clone(&self) -> (r: Message)
        ensures
            r.id == self.id,
            r.protocol == self.protocol,
            r.data@ == self.data@,
            r.timestamp == self.timestamp,
    {
        Message {
            id: self.id.clone(),
            protocol: self.protocol.clone(),
            data: vstd::slice::slice_to_vec(self.data.as_slice()),
            timestamp: self.timestamp,
        }
    }
}

/// A communication protocol capability. Implementations live outside the
/// library; nothing is assumed of them beyond these signatures.
pub trait Protocol {
    /// The protocol's name.
    fn name(&self) -> String;

    /// The protocol's version.
    fn version(&self) -> String;

    /// Initialize the protocol.
    fn initialize(&mut self) -> Result<(), Error>;

    /// Send a message.
    fn send(&self, message: &Message) -> Result<(), Error>;

    /// Receive a message.
    fn receive(&self) -> Result<Message, Error>;
}

/// Protocol manager: registered protocols under their names, in registration
/// order.
pub struct ProtocolManager<P: Protocol> {
    protocols: Vec<(String, P)>,
}

impl<P: Protocol> ProtocolManager<P> {
    /// The registered protocols, each under its name.
    pub closed spec fn protocols(self) -> Seq<(String, P)> {
        self.protocols@
    }

    /// Create a new protocol manager.
    pub fn new() -> (r: ProtocolManager<P>)
        ensures
            r.protocols().len() == 0,
    {
        ProtocolManager { protocols: Vec::new() }
    }

    /// Register a protocol under a name.
    pub fn add_protocol(&mut self, name: String, protocol: P)
        ensures
            final(self).protocols() == old(self).protocols().push((name, protocol)),
    {
        self.protocols.push((name, protocol));
    }

    /// The first protocol registered under this name, if any.
    pub fn get_protocol(&self, name: &str) -> (r: Option<&P>)
        ensures
            r matches Some(p) ==> exists|i: int|
                0 <= i < self.protocols().len() && self.protocols()[i].0@ == name@ && *p
                    == self.protocols()[i].1,
            r is None ==> forall|i: int|
                0 <= i < self.protocols().len() ==> self.protocols()[i].0@ != name@,
    {
        let key = name.to_owned();
        let n = self.protocols.len();
        let mut i: usize = 0;
        while i < n
            invariant
                key@ == name@,
                i <= n == self.protocols().len(),
                forall|j: int| 0 <= j < i ==> self.protocols()[j].0@ != name@,
            decreases n - i,
        {
            if self.protocols[i].0.eq(&key) {
                return Some(&self.protocols[i].1);
            }
            i = i + 1;
        }
        None
    }
}

} // verus!
