//! Guest memory: the size check made before any backend call, the payload
//! copy, and the record that binds the host region as guest physical memory.
use vstd::prelude::*;

use crate::error::HarnessError;

verus! {

/// Slot under which the single memory region is registered.
pub const REGION_SLOT: u32 = 0;

/// Guest physical address at which the region starts.
pub const GUEST_PHYS_BASE: u64 = 0;

/// Region flags: none, so the region is read/write for the guest.
pub const REGION_FLAGS: u32 = 0;

/// Binding of a host memory block as a range of guest physical memory.
#[derive(Clone, Copy, Debug, PartialEq, Eq, Structural)]
pub struct MemoryRegionMapping {
    pub slot: u32,
    pub guest_phys_addr: u64,
    pub memory_size: u64,
    pub userspace_addr: u64,
    pub flags: u32,
}

impl MemoryRegionMapping {
    /// The mapping of a host block at `addr` of `size` bytes as the guest
    /// range `[0, size)` in the one slot.
    pub open spec fn covers(&self, addr: u64, size: u64) -> bool {
        &&& self.slot == REGION_SLOT
        &&& self.guest_phys_addr == GUEST_PHYS_BASE
        &&& self.memory_size == size
        &&& self.userspace_addr == addr
        &&& self.flags == REGION_FLAGS
    }
}

/// Whether a region of `region_size` bytes can hold a payload of
/// `payload_size` bytes.
pub open spec fn fits(region_size: u64, payload_size: u64) -> bool {
    payload_size <= region_size
}

/// Checks the configured sizes: `Ok` when the region holds the payload,
/// a configuration error otherwise.
pub fn check_region(region_size: u64, payload_size: u64) -> (r: Result<(), HarnessError>)
    ensures
        r is Ok <==> fits(region_size, payload_size),
        r is Err ==> r == Err::<(), HarnessError>(
            HarnessError::Configuration { region_size, payload_size },
        ),
{
    if payload_size <= region_size {
        Ok(())
    } else {
        Err(HarnessError::Configuration { region_size, payload_size })
    }
}

/// The mapping that binds the host block at `addr` of `size` bytes to guest
/// physical address zero.
pub fn region_mapping(addr: u64, size: u64) -> (r: MemoryRegionMapping)
    ensures
        r.covers(addr, size),
        r.guest_phys_addr + r.memory_size <= size,
{
    MemoryRegionMapping {
        slot: REGION_SLOT,
        guest_phys_addr: GUEST_PHYS_BASE,
        memory_size: size,
        userspace_addr: addr,
        flags: REGION_FLAGS,
    }
}

/// Copies `payload` into the first `payload.len()` bytes of `region`; the
/// bytes after it are left as they were.
pub fn load_payload(region: &mut [u8], payload: &[u8])
    requires
        payload@.len() <= old(region)@.len(),
    ensures
        final(region)@.len() == old(region)@.len(),
        final(region)@ == payload@ + old(region)@.subrange(
            payload@.len() as int,
            old(region)@.len() as int,
        ),
{
    let n = payload.len();
    let mut i: usize = 0;
    while i < n
        invariant
            n == payload@.len(),
            i <= n,
            n <= region@.len(),
            region@.len() == old(region)@.len(),
            forall|k: int| 0 <= k < i ==> region@[k] == payload@[k],
            forall|k: int| i <= k < region@.len() ==> region@[k] == old(region)@[k],
        decreases n - i,
    {
        region[i] = payload[i];
        i = i + 1;
    }
    assert(region@ =~= payload@ + old(region)@.subrange(n as int, old(region)@.len() as int));
}

} // verus!
