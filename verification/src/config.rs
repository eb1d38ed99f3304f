//! What the host may set before a start: where to listen, how many batches
//! the bus holds, and how long a closing connection may take.

use vstd::prelude::*;

verus! {

/// The number of batches that the bus holds unless the host says otherwise.
pub const DEFAULT_BUS_CAPACITY: usize = 16;

/// The milliseconds granted to a graceful close unless the host says
/// otherwise.
pub const DEFAULT_DRAIN_GRACE_MS: u64 = 100;

/// The capacities with which a bus can be made: at least one batch, and no
/// more than half of what a `usize` counts.
pub open spec fn capacity_ok(capacity: usize) -> bool {
    1 <= capacity <= usize::MAX / 2
}

/// The settings of one start.
pub struct Config {
    host: String,
    port: u16,
    bus_capacity: usize,
    drain_grace_ms: u64,
}

/// What a `Config` holds.
pub struct ConfigView {
    pub host: Seq<char>,
    pub port: u16,
    pub bus_capacity: usize,
    pub drain_grace_ms: u64,
}

impl View for Config {
    type V = ConfigView;

    closed spec fn view(&self) -> ConfigView {
        ConfigView {
            host: self.host@,
            port: self.port,
            bus_capacity: self.bus_capacity,
            drain_grace_ms: self.drain_grace_ms,
        }
    }
}

impl Config {
    #[verifier::type_invariant]
    spec fn valid(self) -> bool {
        capacity_ok(self.bus_capacity)
    }

    /// The settings for an address, with the default capacity and grace.
    pub fn new(host: String, port: u16) -> (config: Config)
        ensures
            config@ == (ConfigView {
                host: host@,
                port,
                bus_capacity: DEFAULT_BUS_CAPACITY,
                drain_grace_ms: DEFAULT_DRAIN_GRACE_MS,
            }),
    {
        Config {
            host,
            port,
            bus_capacity: DEFAULT_BUS_CAPACITY,
            drain_grace_ms: DEFAULT_DRAIN_GRACE_MS,
        }
    }

    /// The same settings with another capacity for the bus, or nothing where
    /// no bus can be made with that capacity.
    pub fn with_bus_capacity(self, capacity: usize) -> (config: Option<Config>)
        ensures
            config is Some <==> capacity_ok(capacity),
            config matches Some(c) ==> c@ == (ConfigView { bus_capacity: capacity, ..self@ }),
    {
        if 1 <= capacity && capacity <= usize::MAX / 2 {
            Some(
                Config {
                    host: self.host,
                    port: self.port,
                    bus_capacity: capacity,
                    drain_grace_ms: self.drain_grace_ms,
                },
            )
        } else {
            None
        }
    }

    /// The same settings with another grace for a closing connection.
    pub fn with_drain_grace_ms(self, millis: u64) -> (config: Config)
        ensures
            config@ == (ConfigView { drain_grace_ms: millis, ..self@ }),
    {
        proof {
            use_type_invariant(&self);
        }
        Config {
            host: self.host,
            port: self.port,
            bus_capacity: self.bus_capacity,
            drain_grace_ms: millis,
        }
    }

    /// The host to bind to.
    pub fn host(&self) -> (host: &String)
        ensures
            host@ == self@.host,
    {
        &self.host
    }

    /// The port to bind to.
    pub fn port(&self) -> (port: u16)
        ensures
            port == self@.port,
    {
        self.port
    }

    /// The capacity of the bus. A bus can always be made with it.
    pub fn bus_capacity(&self) -> (capacity: usize)
        ensures
            capacity == self@.bus_capacity,
            capacity_ok(capacity),
    {
        proof {
            use_type_invariant(self);
        }
        self.bus_capacity
    }

    /// The milliseconds granted to a graceful close.
    pub fn drain_grace_ms(&self) -> (millis: u64)
        ensures
            millis == self@.drain_grace_ms,
    {
        self.drain_grace_ms
    }
}

} // verus!
