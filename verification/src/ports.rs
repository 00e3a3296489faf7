//! Host port allocation: scans candidates from a base port, skipping ports
//! reserved in the store and ports the host reports as taken.

use vstd::prelude::*;

use crate::errors::HypervisorError;
use crate::host::local_port_free;
use crate::store::{has_port, StateStore};

verus! {

/// Allocator over the store's reservation table and the host's bind probe.
pub struct PortAllocator;

impl PortAllocator {
    pub fn new() -> (r: Self)
        ensures
            true,
    {
        PortAllocator
    }

    /// Scans at most 1000 candidates starting at `base_port`. A returned
    /// port is within that window and free in the reservation table; the
    /// host probe decides the rest, so exhaustion is always possible — and
    /// certain when every candidate is already reserved or past the port
    /// range.
    pub fn allocate_port(&self, store: &StateStore, base_port: u16) -> (r: Result<
        u16,
        HypervisorError,
    >)
        ensures
            match r {
                Ok(p) => base_port <= p < base_port + 1000 && !has_port(store.ports@, p),
                Err(HypervisorError::NoPortsAvailable) => true,
                _ => false,
            },
            (forall|p: u16| base_port <= p < base_port + 1000 ==> has_port(store.ports@, p))
                ==> r is Err,
    {
        let mut offset: u16 = 0;
        while offset < 1000
            invariant
                offset <= 1000,
            decreases 1000 - offset,
        {
            let candidate_wide: u32 = base_port as u32 + offset as u32;
            if candidate_wide > 65535 {
                return Err(HypervisorError::NoPortsAvailable);
            }
            let candidate: u16 = candidate_wide as u16;
            if !store.port_reserved(candidate) {
                if local_port_free(candidate) {
                    return Ok(candidate);
                }
            }
            offset = offset + 1;
        }
        Err(HypervisorError::NoPortsAvailable)
    }

    /// Whether `port` could be handed out right now: false when it is
    /// reserved in the store, otherwise whatever the host probe reports.
    pub fn is_port_available(&self, store: &StateStore, port: u16) -> (r: bool)
        ensures
            has_port(store.ports@, port) ==> r == false,
    {
        if store.port_reserved(port) {
            return false;
        }
        local_port_free(port)
    }
}

} // verus!
