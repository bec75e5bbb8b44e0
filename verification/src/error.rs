//! The failure taxonomy of the initialization pipeline.
//!
//! No failure is recoverable: each variant names the one operation that
//! failed, and the embedding program terminates after reporting it. A
//! failure at the very first step (opening the control device) is escalated
//! as a startup abort; every later failure exits with code 1.

use vstd::prelude::*;

verus! {

/// The process exit code used for every failure past device open.
pub const FAILURE_EXIT_CODE: i32 = 1;

/// Why the initialization pipeline stopped. Each variant carries the raw OS
/// error code of the failing call, except `IncompatibleApiVersion`, which
/// carries the version the kernel reported instead of the expected one, and
/// `RunSizeQueryFailed`, which carries the reported size when that size was
/// not positive.
#[derive(Clone, Copy, Debug, PartialEq, Eq, Structural)]
pub enum InitError {
    /// The virtualization control device could not be opened, or did not
    /// answer the API version query.
    DeviceUnavailable(i32),
    /// The kernel reported an API version other than the one this library
    /// was built against; the build and the kernel interface do not match.
    IncompatibleApiVersion(i32),
    /// The kernel refused to create a VM context.
    VmCreationFailed(i32),
    /// The anonymous mapping that backs guest memory could not be created.
    MemoryMapFailed(i32),
    /// The kernel rejected the guest memory region, or the region offered
    /// for registration was empty or had a null host address.
    MemoryRegistrationFailed(i32),
    /// The kernel refused to create a vCPU.
    VcpuCreationFailed(i32),
    /// The run-structure size query failed, or reported a size that was not
    /// positive (a zero size is an internal-consistency violation).
    RunSizeQueryFailed(i32),
    /// The run structure could not be mapped over the vCPU descriptor.
    RunStructureMapFailed(i32),
}

impl InitError {
    /// The raw value carried by the variant: an OS error code, the
    /// mismatched version, or the non-positive reported size.
    pub open spec fn spec_os_error(self) -> i32 {
        match self {
            InitError::DeviceUnavailable(e) => e,
            InitError::IncompatibleApiVersion(e) => e,
            InitError::VmCreationFailed(e) => e,
            InitError::MemoryMapFailed(e) => e,
            InitError::MemoryRegistrationFailed(e) => e,
            InitError::VcpuCreationFailed(e) => e,
            InitError::RunSizeQueryFailed(e) => e,
            InitError::RunStructureMapFailed(e) => e,
        }
    }

    /// The raw value carried by the variant.
    pub fn os_error(&self) -> (r: i32)
        ensures
            r == self.spec_os_error(),
    {
        match self {
            InitError::DeviceUnavailable(e) => *e,
            InitError::IncompatibleApiVersion(e) => *e,
            InitError::VmCreationFailed(e) => *e,
            InitError::MemoryMapFailed(e) => *e,
            InitError::MemoryRegistrationFailed(e) => *e,
            InitError::VcpuCreationFailed(e) => *e,
            InitError::RunSizeQueryFailed(e) => *e,
            InitError::RunStructureMapFailed(e) => *e,
        }
    }

    /// The name of the failing operation, for diagnostics.
    pub fn step_name(&self) -> (r: &'static str)
        ensures
            self is DeviceUnavailable ==> r@ == "opening the virtualization control device"@,
            self is IncompatibleApiVersion ==> r@ == "verifying the virtualization API version"@,
            self is VmCreationFailed ==> r@ == "creating the VM context"@,
            self is MemoryMapFailed ==> r@ == "allocating guest memory"@,
            self is MemoryRegistrationFailed ==> r@ == "registering guest memory"@,
            self is VcpuCreationFailed ==> r@ == "creating the vCPU"@,
            self is RunSizeQueryFailed ==> r@ == "querying the run-structure size"@,
            self is RunStructureMapFailed ==> r@ == "mapping the run structure"@,
    {
        match self {
            InitError::DeviceUnavailable(_) => "opening the virtualization control device",
            InitError::IncompatibleApiVersion(_) => "verifying the virtualization API version",
            InitError::VmCreationFailed(_) => "creating the VM context",
            InitError::MemoryMapFailed(_) => "allocating guest memory",
            InitError::MemoryRegistrationFailed(_) => "registering guest memory",
            InitError::VcpuCreationFailed(_) => "creating the vCPU",
            InitError::RunSizeQueryFailed(_) => "querying the run-structure size",
            InitError::RunStructureMapFailed(_) => "mapping the run structure",
        }
    }

    /// Whether the failure is an unrecoverable startup abort (a failure of
    /// the control device itself) rather than a coded exit.
    pub fn is_startup_abort(&self) -> (r: bool)
        ensures
            r <==> self is DeviceUnavailable,
    {
        matches!(self, InitError::DeviceUnavailable(_))
    }

    /// The process exit code for this failure: always non-zero, and fixed
    /// at 1 for every failure class.
    pub fn exit_code(&self) -> (r: i32)
        ensures
            r == FAILURE_EXIT_CODE,
            r != 0,
    {
        FAILURE_EXIT_CODE
    }
}

} // verus!
