//! Port-mapped I/O ports.
use vstd::prelude::*;

verus! {

/// An I/O port number.
#[derive(Copy, Clone, Debug, PartialEq, Eq, Structural)]
pub struct Pio(pub u16);

impl Pio {
    /// Create a new port-mapped I/O interface.
    pub fn new(port: u16) -> (r: Pio)
        ensures
            r.0 == port,
    {
        Pio(port)
    }

    /// The port number.
    pub fn port(self) -> (r: u16)
        ensures
            r == self.0,
    {
        self.0
    }
}

} // verus!
