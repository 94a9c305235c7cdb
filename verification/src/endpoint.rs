//! Where requests go and how long a reply may take.

use vstd::prelude::*;

verus! {

/// UDP port on which NTP servers listen.
pub const NTP_PORT: u16 = 123;

/// Time allowed for a reply, in milliseconds, where nothing else is asked for.
pub const DEFAULT_TIMEOUT_MILLIS: u64 = 2_000;

/// A resolved IP address, as the number its bytes spell in network order.
#[derive(Clone, Copy, Debug, PartialEq, Eq, Structural)]
pub enum HostAddress {
    V4(u32),
    V6(u128),
}

/// A server to ask: address, port and the time allowed for its reply.
/// The time allowed is never zero.
#[derive(Clone, Copy, Debug, PartialEq, Eq, Structural)]
pub struct Endpoint {
    address: HostAddress,
    port: u16,
    timeout_millis: u64,
}

impl Endpoint {
    #[verifier::type_invariant]
    pub closed spec fn well_formed(self) -> bool {
        self.timeout_millis > 0
    }

    /// Address of the server.
    pub closed spec fn spec_address(self) -> HostAddress {
        self.address
    }

    /// Port of the server.
    pub closed spec fn spec_port(self) -> u16 {
        self.port
    }

    /// Milliseconds allowed for a reply.
    pub closed spec fn spec_timeout_millis(self) -> u64 {
        self.timeout_millis
    }

    /// Makes an endpoint. A timeout of zero is refused, and nothing else is.
    pub fn new(address: HostAddress, port: u16, timeout_millis: u64) -> (r: Option<Endpoint>)
        ensures
            r is Some <==> timeout_millis > 0,
            r matches Some(e) ==> e.well_formed() && e.spec_address() == address && e.spec_port()
                == port && e.spec_timeout_millis() == timeout_millis,
    {
        if timeout_millis == 0 {
            None
        } else {
            Some(Endpoint { address, port, timeout_millis })
        }
    }

    /// Address of the server.
    pub fn address(&self) -> (r: HostAddress)
        ensures
            r == self.spec_address(),
    {
        self.address
    }

    /// Port of the server.
    pub fn port(&self) -> (r: u16)
        ensures
            r == self.spec_port(),
    {
        self.port
    }

    /// Milliseconds allowed for a reply; never zero.
    pub fn timeout_millis(&self) -> (r: u64)
        ensures
            r == self.spec_timeout_millis(),
            r > 0,
    {
        proof {
            use_type_invariant(self);
        }
        self.timeout_millis
    }
}

} // verus!
