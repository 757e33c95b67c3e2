//! ROS2 bridge handles and their registry.
//!
//! The actual middleware session is a caller-side adapter; the library owns
//! the bridge's configuration, its connection state, and the registry of
//! bridges by name.

use vstd::prelude::*;

use crate::error::Error;

verus! {

/// ROS2 configuration.
#[derive(Clone, Debug)]
pub struct ROS2Config {
    /// Node name.
    pub node_name: String,
    /// Namespace.
    pub namespace: String,
    /// QoS profile.
    pub qos_profile: String,
}

impl Default for ROS2Config {
    /// The bridge node in its own namespace, default QoS.
    fn default() -> (r: ROS2Config)
        ensures
            r.node_name@ == "kova_bridge"@,
            r.namespace@ == "/kova"@,
            r.qos_profile@ == "default"@,
    {
        ROS2Config {
            node_name: ("kova_bridge").to_owned(),
            namespace: ("/kova").to_owned(),
            qos_profile: ("default").to_owned(),
        }
    }
}

/// A bridge into one ROS2 graph.
pub struct ROS2Bridge {
    config: ROS2Config,
    is_connected: bool,
}

impl ROS2Bridge {
    /// The configuration the bridge was built with.
    pub closed spec fn config(self) -> ROS2Config {
        self.config
    }

    /// Whether the bridge currently holds a connection.
    pub closed spec fn connected(self) -> bool {
        self.is_connected
    }

    /// Create a new, unconnected bridge.
    pub fn new(config: ROS2Config) -> (r: Result<ROS2Bridge, Error>)
        ensures
            r matches Ok(b) && b.config() == config && !b.connected(),
    {
        Ok(ROS2Bridge { config, is_connected: false })
    }

    /// Connect to the ROS2 graph.
    pub fn connect(&mut self) -> (r: Result<(), Error>)
        ensures
            r is Ok,
            final(self).connected(),
            final(self).config() == old(self).config(),
    {
        self.is_connected = true;
        Ok(())
    }

    /// Disconnect from the ROS2 graph.
    pub fn disconnect(&mut self) -> (r: Result<(), Error>)
        ensures
            r is Ok,
            !final(self).connected(),
            final(self).config() == old(self).config(),
    {
        self.is_connected = false;
        Ok(())
    }

    /// Whether the bridge currently holds a connection.
    pub fn is_connected(&self) -> (r: bool)
        ensures
            r == self.connected(),
    {
        self.is_connected
    }
}

/// Registry of bridges under their names, in registration order.
pub struct ROS2Manager {
    bridges: Vec<(String, ROS2Bridge)>,
}

impl ROS2Manager {
    /// The registered bridges, each under its name.
    pub closed spec fn bridges(self) -> Seq<(String, ROS2Bridge)> {
        self.bridges@
    }

    /// Create a new, empty manager.
    pub fn new() -> (r: ROS2Manager)
        ensures
            r.bridges().len() == 0,
    {
        ROS2Manager { bridges: Vec::new() }
    }

    /// Build a bridge for the configuration and register it under a name.
    pub fn add_bridge(&mut self, name: String, config: ROS2Config) -> (r: Result<(), Error>)
        ensures
            r is Ok,
            final(self).bridges().len() == old(self).bridges().len() + 1,
            final(self).bridges().last().0 == name,
            final(self).bridges().last().1.config() == config,
            final(self).bridges().take(old(self).bridges().len() as int) == old(self).bridges(),
    {
        let bridge = match ROS2Bridge::new(config) {
            Ok(b) => b,
            Err(e) => {
                return Err(e);
            },
        };
        self.bridges.push((name, bridge));
        proof {
            assert(self.bridges().take(old(self).bridges().len() as int) =~= old(self).bridges());
        }
        Ok(())
    }

    /// The first bridge registered under this name, if any.
    pub fn get_bridge(&self, name: &str) -> (r: Option<&ROS2Bridge>)
        ensures
            r matches Some(b) ==> exists|i: int|
                0 <= i < self.bridges().len() && self.bridges()[i].0@ == name@ && *b
                    == self.bridges()[i].1,
            r is None ==> forall|i: int|
                0 <= i < self.bridges().len() ==> self.bridges()[i].0@ != name@,
    {
        let key = name.to_owned();
        let n = self.bridges.len();
        let mut i: usize = 0;
        while i < n
            invariant
                key@ == name@,
                i <= n == self.bridges().len(),
                forall|j: int| 0 <= j < i ==> self.bridges()[j].0@ != name@,
            decreases n - i,
        {
            if self.bridges[i].0.eq(&key) {
                return Some(&self.bridges[i].1);
            }
            i = i + 1;
        }
        None
    }
}

} // verus!
