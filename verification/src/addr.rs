//! Plain-value form of a remote socket address.
//!
//! The transport collaborator works with its own address types; the lifecycle
//! manager only ever carries an address through from the call that created a
//! session record to the diagnostics and events about that record. It is held
//! here as raw octets plus a port so that contracts can speak about it
//! directly.

use vstd::prelude::*;

verus! {

/// Number of octets in a version-4 host address.
pub const ADDR_V4_OCTETS: usize = 4;

/// Number of octets in a version-6 host address.
pub const ADDR_V6_OCTETS: usize = 16;

/// A remote address as plain values: the host octets (4 for a version-4
/// address, 16 for a version-6 one) and the port.
#[derive(Clone, Debug)]
pub struct PeerAddr {
    /// Host octets, most significant first.
    pub octets: Vec<u8>,
    /// Transport port.
    pub port: u16,
}

impl PeerAddr {
    /// A `PeerAddr` is well formed when its octet count matches one of the
    /// two address families.
    pub open spec fn wf(self) -> bool {
        self.octets@.len() == ADDR_V4_OCTETS || self.octets@.len() == ADDR_V6_OCTETS
    }

    /// Builds a version-4 address from its four octets and a port.
    pub fn v4(a: u8, b: u8, c: u8, d: u8, port: u16) -> (r: PeerAddr)
        ensures
            r.octets@ =~= seq![a, b, c, d],
            r.port == port,
            r.wf(),
    {
        let mut octets: Vec<u8> = Vec::new();
        octets.push(a);
        octets.push(b);
        octets.push(c);
        octets.push(d);
        PeerAddr { octets, port }
    }
}

} // verus!
