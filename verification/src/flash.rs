//! Flash memory access control.

use vstd::prelude::*;

verus! {

/// The flash peripheral: the latency field of its access control register.
pub struct FLASH {
    pub latency: u8,
}

/// Extension trait to constrain the `FLASH` peripheral.
pub trait FlashExt {
    /// Constrains the `FLASH` peripheral to play nicely with the other
    /// abstractions.
    fn constrain(self) -> Parts;
}

impl FlashExt for FLASH {
    fn constrain(self) -> (parts: Parts)
        ensures
            parts.acr.wait_states() == self.latency,
    {
        Parts { acr: ACR { latency: self.latency } }
    }
}

/// Constrained FLASH peripheral.
pub struct Parts {
    /// Opaque ACR register
    pub acr: ACR,
}

/// Proxy of the flash access control register.
///
/// It holds the latency field of the register: the number of wait states
/// that the flash controller inserts per access.
pub struct ACR {
    latency: u8,
}

impl ACR {
    /// The number of wait states.
    pub closed spec fn wait_states(&self) -> nat {
        self.latency as nat
    }

    /// The latency field.
    pub fn latency(&self) -> (n: u8)
        ensures
            n == self.wait_states(),
    {
        self.latency
    }

    /// Writes the latency field.
    pub(crate) fn set_latency(&mut self, n: u8)
        ensures
            final(self).wait_states() == n,
    {
        self.latency = n;
    }
}

} // verus!
