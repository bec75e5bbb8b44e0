//! The guest memory region and the rules for registering it.
//!
//! This design registers exactly one region: one page of anonymous shared
//! memory, placed at guest physical address 0 in slot 0 with no flags. A
//! region whose size is zero, or whose host address is null, is refused
//! before any kernel call is made.

use vstd::prelude::*;
use crate::error::InitError;

verus! {

/// The fixed size of the guest memory region: one page.
pub const GUEST_MEMORY_SIZE: u64 = 4096;

/// The one slot index this design registers.
pub const GUEST_MEMORY_SLOT: u32 = 0;

/// The flags the region is registered with: none (no read-only mapping, no
/// dirty-page tracking).
pub const GUEST_MEMORY_FLAGS: u32 = 0;

/// The guest physical address the region is placed at.
pub const GUEST_PHYS_BASE: u64 = 0;

/// The OS error code reported when a region is refused before the kernel
/// sees it: the code the kernel itself uses for an invalid argument.
pub const INVALID_REGION_OS_ERROR: i32 = 22;

/// What is handed to the kernel to register host memory as guest-visible
/// RAM: a slot, flags, the guest physical base, the byte size, and the host
/// virtual address of an already established mapping.
#[derive(Clone, Copy, Debug, PartialEq, Eq, Structural)]
pub struct MemoryRegion {
    /// Caller-chosen slot index, unique per VM.
    pub slot: u32,
    /// Registration flags.
    pub flags: u32,
    /// Base of the region in the guest physical address space.
    pub guest_phys_addr: u64,
    /// Size of the region in bytes.
    pub memory_size: u64,
    /// Host virtual base address backing the region.
    pub userspace_addr: u64,
}

impl MemoryRegion {
    /// Whether this is the one region this design registers, backed at
    /// `host_addr`: slot 0, no flags, guest physical address 0, one page.
    pub open spec fn is_guest_region_for(self, host_addr: u64) -> bool {
        &&& self.slot == GUEST_MEMORY_SLOT
        &&& self.flags == GUEST_MEMORY_FLAGS
        &&& self.guest_phys_addr == GUEST_PHYS_BASE
        &&& self.memory_size == GUEST_MEMORY_SIZE
        &&& self.userspace_addr == host_addr
    }

    /// Whether the region can be offered to the kernel at all: it covers at
    /// least one byte and is backed by a non-null host address.
    pub open spec fn is_registrable(self) -> bool {
        self.memory_size != 0 && self.userspace_addr != 0
    }
}

/// The region this design registers for a mapping at `host_addr`.
pub fn guest_region(host_addr: u64) -> (r: MemoryRegion)
    ensures
        r.is_guest_region_for(host_addr),
{
    MemoryRegion {
        slot: GUEST_MEMORY_SLOT,
        flags: GUEST_MEMORY_FLAGS,
        guest_phys_addr: GUEST_PHYS_BASE,
        memory_size: GUEST_MEMORY_SIZE,
        userspace_addr: host_addr,
    }
}

/// Refuses an empty or unbacked region before any kernel call: registration
/// of a region with size 0 or a null host address fails with
/// `MemoryRegistrationFailed`, and only a registrable region passes.
pub fn check_region(region: &MemoryRegion) -> (r: Result<(), InitError>)
    ensures
        r is Ok <==> region.is_registrable(),
        r is Err ==> r == Err::<(), InitError>(InitError::MemoryRegistrationFailed(
            INVALID_REGION_OS_ERROR,
        )),
{
    if region.memory_size == 0 || region.userspace_addr == 0 {
        Err(InitError::MemoryRegistrationFailed(INVALID_REGION_OS_ERROR))
    } else {
        Ok(())
    }
}

} // verus!
