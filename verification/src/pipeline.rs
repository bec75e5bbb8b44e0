//! The initialization pipeline as a linear state machine.
//!
//! A [`VmInit`] value records how far bring-up has progressed and every
//! resource acquired so far. The kernel calls themselves are made by the
//! embedding program: at each stage [`VmInit::next_action`] says which call
//! is due and with which arguments, the program performs it, and feeds the
//! outcome into the one transition the stage admits. Each transition either
//! advances the pipeline by exactly one stage or returns the error the
//! failing operation maps to; a failed pipeline value no longer exists, so
//! no later stage can be attempted after a failure.

use vstd::prelude::*;
use vstd::pervasive::unreached;
use crate::error::InitError;
use crate::region::MemoryRegion;
use crate::region::guest_region;
use crate::requests::EXPECTED_API_VERSION;
use crate::requests::expected_api_version;
use crate::stage::Stage;

verus! {

/// The vCPU index this design creates: the one and only vCPU.
pub const VCPU_INDEX: u64 = 0;

/// The kernel call that is due next, with the arguments the embedding
/// program needs to make it.
#[derive(Clone, Copy, Debug, PartialEq, Eq, Structural)]
pub enum Action {
    /// Open the virtualization control device read-write.
    OpenDevice,
    /// Query the API version over the control device.
    QueryApiVersion { sys_fd: i32 },
    /// Ask the control device for a VM descriptor.
    CreateVm { sys_fd: i32 },
    /// Establish an anonymous shared read-write mapping of `size` bytes.
    AllocateGuestMemory { size: u64 },
    /// Register `region` with the VM as guest RAM.
    RegisterMemory { vm_fd: i32, region: MemoryRegion },
    /// Ask the VM for a vCPU descriptor with index `index`.
    CreateVcpu { vm_fd: i32, index: u64 },
    /// Query the run-structure size over the control device (it is a
    /// system-wide value, so the query goes to the control device, not to
    /// the VM or the vCPU).
    QueryRunSize { sys_fd: i32 },
    /// Map `size` bytes, shared read-write, over the vCPU descriptor at
    /// offset 0.
    MapRunStructure { vcpu_fd: i32, size: i32 },
    /// Bring-up is complete; nothing is due.
    Finished,
}

/// The state of the initialization pipeline: the stage reached and the
/// resources acquired on the way there.
pub struct VmInit {
    stage: Stage,
    sys_fd: Option<i32>,
    api_version: Option<i32>,
    vm_fd: Option<i32>,
    guest_mem: Option<u64>,
    vcpu_fd: Option<i32>,
    run_size: Option<i32>,
    run_addr: Option<u64>,
}

impl VmInit {
    /// The stage the pipeline has reached.
    pub closed spec fn spec_stage(self) -> Stage {
        self.stage
    }

    /// The control-device descriptor, once the device is open.
    pub closed spec fn spec_sys_fd(self) -> Option<i32> {
        self.sys_fd
    }

    /// The verified API version, once the version check has passed.
    pub closed spec fn spec_api_version(self) -> Option<i32> {
        self.api_version
    }

    /// The VM descriptor, once the VM context exists.
    pub closed spec fn spec_vm_fd(self) -> Option<i32> {
        self.vm_fd
    }

    /// The host address of the guest memory mapping, once it is allocated.
    pub closed spec fn spec_guest_mem(self) -> Option<u64> {
        self.guest_mem
    }

    /// The vCPU descriptor, once the vCPU exists.
    pub closed spec fn spec_vcpu_fd(self) -> Option<i32> {
        self.vcpu_fd
    }

    /// The reported run-structure size, once it is known.
    pub closed spec fn spec_run_size(self) -> Option<i32> {
        self.run_size
    }

    /// The host address of the run-structure mapping, once it exists.
    pub closed spec fn spec_run_addr(self) -> Option<u64> {
        self.run_addr
    }

    /// Well-formedness: each resource exists exactly from the stage whose
    /// one successful operation acquires it (guest memory is allocated
    /// while the pipeline still stands at `VmCreated`, so it is only tied
    /// to that stage from above); a recorded API version is the expected
    /// one; a recorded run-structure size is positive.
    pub open spec fn wf(self) -> bool {
        &&& (self.spec_sys_fd() is Some <==> self.spec_stage().index() >= 1)
        &&& (self.spec_api_version() is Some <==> self.spec_stage().index() >= 2)
        &&& (self.spec_vm_fd() is Some <==> self.spec_stage().index() >= 3)
        &&& (self.spec_stage().index() >= 4 ==> self.spec_guest_mem() is Some)
        &&& (self.spec_guest_mem() is Some ==> self.spec_stage().index() >= 3)
        &&& (self.spec_vcpu_fd() is Some <==> self.spec_stage().index() >= 5)
        &&& (self.spec_run_size() is Some <==> self.spec_stage().index() >= 6)
        &&& (self.spec_run_addr() is Some <==> self.spec_stage().index() >= 7)
        &&& (self.spec_api_version() matches Some(v) ==> v == EXPECTED_API_VERSION)
        &&& (self.spec_run_size() matches Some(s) ==> s > 0)
    }

    /// A fresh pipeline: nothing acquired, nothing attempted.
    pub fn start() -> (r: VmInit)
        ensures
            r.wf(),
            r.spec_stage() == Stage::Unopened,
    {
        VmInit {
            stage: Stage::Unopened,
            sys_fd: None,
            api_version: None,
            vm_fd: None,
            guest_mem: None,
            vcpu_fd: None,
            run_size: None,
            run_addr: None,
        }
    }

    /// The stage the pipeline has reached.
    pub fn stage(&self) -> (s: Stage)
        ensures
            s == self.spec_stage(),
    {
        self.stage
    }

    /// The open control-device descriptor.
    pub fn sys_fd(&self) -> (r: i32)
        requires
            self.wf(),
            self.spec_stage().index() >= 1,
        ensures
            self.spec_sys_fd() == Some(r),
    {
        match self.sys_fd {
            Some(fd) => fd,
            None => unreached(),
        }
    }

    /// The verified API version.
    pub fn api_version(&self) -> (r: i32)
        requires
            self.wf(),
            self.spec_stage().index() >= 2,
        ensures
            self.spec_api_version() == Some(r),
            r == EXPECTED_API_VERSION,
    {
        match self.api_version {
            Some(v) => v,
            None => unreached(),
        }
    }

    /// The VM descriptor.
    pub fn vm_fd(&self) -> (r: i32)
        requires
            self.wf(),
            self.spec_stage().index() >= 3,
        ensures
            self.spec_vm_fd() == Some(r),
    {
        match self.vm_fd {
            Some(fd) => fd,
            None => unreached(),
        }
    }

    /// The host address backing guest memory.
    pub fn guest_mem_addr(&self) -> (r: u64)
        requires
            self.wf(),
            self.spec_guest_mem() is Some,
        ensures
            self.spec_guest_mem() == Some(r),
    {
        match self.guest_mem {
            Some(a) => a,
            None => unreached(),
        }
    }

    /// The vCPU descriptor.
    pub fn vcpu_fd(&self) -> (r: i32)
        requires
            self.wf(),
            self.spec_stage().index() >= 5,
        ensures
            self.spec_vcpu_fd() == Some(r),
    {
        match self.vcpu_fd {
            Some(fd) => fd,
            None => unreached(),
        }
    }

    /// The reported run-structure size; positive by well-formedness.
    pub fn run_size(&self) -> (r: i32)
        requires
            self.wf(),
            self.spec_stage().index() >= 6,
        ensures
            self.spec_run_size() == Some(r),
            r > 0,
    {
        match self.run_size {
            Some(s) => s,
            None => unreached(),
        }
    }

    /// The host address of the run-structure mapping.
    pub fn run_addr(&self) -> (r: u64)
        requires
            self.wf(),
            self.spec_stage().index() >= 7,
        ensures
            self.spec_run_addr() == Some(r),
    {
        match self.run_addr {
            Some(a) => a,
            None => unreached(),
        }
    }

    /// Record the outcome of opening the control device. On success the
    /// pipeline advances to `DeviceOpen` and owns the descriptor; on
    /// failure the device is unavailable and the pipeline is gone.
    pub fn device_opened(self, res: Result<i32, i32>) -> (r: Result<VmInit, InitError>)
        requires
            self.wf(),
            self.spec_stage() == Stage::Unopened,
            res matches Ok(fd) ==> fd != -1,
        ensures
            res matches Ok(fd) ==> (r matches Ok(v)
                && v.wf()
                && v.spec_stage() == Stage::DeviceOpen
                && v.spec_stage() == self.spec_stage().spec_next()
                && v.spec_sys_fd() == Some(fd)),
            res matches Err(e) ==> r == Err::<VmInit, InitError>(InitError::DeviceUnavailable(e)),
    {
        match res {
            Ok(fd) => Ok(VmInit { stage: Stage::DeviceOpen, sys_fd: Some(fd), ..self }),
            Err(e) => Err(InitError::DeviceUnavailable(e)),
        }
    }

    /// Record the outcome of the API version query. Only the one expected
    /// version advances the pipeline; any other reported version is an
    /// incompatible-interface abort, and a failed query means the control
    /// device itself is not answering.
    pub fn version_checked(self, res: Result<i32, i32>) -> (r: Result<VmInit, InitError>)
        requires
            self.wf(),
            self.spec_stage() == Stage::DeviceOpen,
        ensures
            res matches Ok(v) ==> if v == EXPECTED_API_VERSION {
                r matches Ok(p)
                    && p.wf()
                    && p.spec_stage() == Stage::VersionVerified
                    && p.spec_stage() == self.spec_stage().spec_next()
                    && p.spec_api_version() == Some(v)
                    && p.spec_sys_fd() == self.spec_sys_fd()
            } else {
                r == Err::<VmInit, InitError>(InitError::IncompatibleApiVersion(v))
            },
            res matches Err(e) ==> r == Err::<VmInit, InitError>(InitError::DeviceUnavailable(e)),
    {
        let expected: i32 = expected_api_version();
        match res {
            Ok(v) => {
                if v == expected {
                    Ok(VmInit { stage: Stage::VersionVerified, api_version: Some(v), ..self })
                } else {
                    Err(InitError::IncompatibleApiVersion(v))
                }
            },
            Err(e) => Err(InitError::DeviceUnavailable(e)),
        }
    }

    /// Record the outcome of VM creation. On success the pipeline owns the
    /// VM descriptor.
    pub fn vm_created(self, res: Result<i32, i32>) -> (r: Result<VmInit, InitError>)
        requires
            self.wf(),
            self.spec_stage() == Stage::VersionVerified,
            res matches Ok(fd) ==> fd != -1,
        ensures
            res matches Ok(fd) ==> (r matches Ok(v)
                && v.wf()
                && v.spec_stage() == Stage::VmCreated
                && v.spec_stage() == self.spec_stage().spec_next()
                && v.spec_vm_fd() == Some(fd)
                && v.spec_sys_fd() == self.spec_sys_fd()
                && v.spec_api_version() == self.spec_api_version()
                && v.spec_guest_mem() is None),
            res matches Err(e) ==> r == Err::<VmInit, InitError>(InitError::VmCreationFailed(e)),
    {
        match res {
            Ok(fd) => Ok(VmInit { stage: Stage::VmCreated, vm_fd: Some(fd), ..self }),
            Err(e) => Err(InitError::VmCreationFailed(e)),
        }
    }

    /// Record the outcome of allocating the anonymous mapping that backs
    /// guest memory. The stage does not move: registration is still owed.
    pub fn guest_memory_allocated(self, res: Result<u64, i32>) -> (r: Result<VmInit, InitError>)
        requires
            self.wf(),
            self.spec_stage() == Stage::VmCreated,
            self.spec_guest_mem() is None,
        ensures
            res matches Ok(addr) ==> (r matches Ok(v)
                && v.wf()
                && v.spec_stage() == Stage::VmCreated
                && v.spec_guest_mem() == Some(addr)
                && v.spec_sys_fd() == self.spec_sys_fd()
                && v.spec_api_version() == self.spec_api_version()
                && v.spec_vm_fd() == self.spec_vm_fd()),
            res matches Err(e) ==> r == Err::<VmInit, InitError>(InitError::MemoryMapFailed(e)),
    {
        match res {
            Ok(addr) => Ok(VmInit { guest_mem: Some(addr), ..self }),
            Err(e) => Err(InitError::MemoryMapFailed(e)),
        }
    }

    /// The one region this pipeline registers: slot 0, no flags, guest
    /// physical address 0, one page, backed by the allocated mapping.
    pub fn memory_region(&self) -> (r: MemoryRegion)
        requires
            self.wf(),
            self.spec_stage() == Stage::VmCreated,
            self.spec_guest_mem() is Some,
        ensures
            r.is_guest_region_for(self.spec_guest_mem()->0),
    {
        guest_region(self.guest_mem_addr())
    }

    /// Record the outcome of registering guest memory. Only the canonical
    /// region, backed by a non-null address, may be offered (an empty or
    /// unbacked region is refused by `crate::region::check_region` before
    /// any kernel call); on kernel rejection the registration has failed
    /// and the pipeline is gone.
    pub fn memory_registered(
        self,
        region: MemoryRegion,
        res: Result<(), i32>,
    ) -> (r: Result<VmInit, InitError>)
        requires
            self.wf(),
            self.spec_stage() == Stage::VmCreated,
            self.spec_guest_mem() is Some,
            region.is_guest_region_for(self.spec_guest_mem()->0),
            region.is_registrable(),
        ensures
            res matches Ok(u) ==> (r matches Ok(v)
                && v.wf()
                && v.spec_stage() == Stage::MemoryRegistered
                && v.spec_stage() == self.spec_stage().spec_next()
                && v.spec_sys_fd() == self.spec_sys_fd()
                && v.spec_api_version() == self.spec_api_version()
                && v.spec_vm_fd() == self.spec_vm_fd()
                && v.spec_guest_mem() == self.spec_guest_mem()),
            res matches Err(e) ==> r
                == Err::<VmInit, InitError>(InitError::MemoryRegistrationFailed(e)),
    {
        match res {
            Ok(_) => Ok(VmInit { stage: Stage::MemoryRegistered, ..self }),
            Err(e) => Err(InitError::MemoryRegistrationFailed(e)),
        }
    }

    /// Record the outcome of vCPU creation. On success the pipeline owns
    /// the vCPU descriptor.
    pub fn vcpu_created(self, res: Result<i32, i32>) -> (r: Result<VmInit, InitError>)
        requires
            self.wf(),
            self.spec_stage() == Stage::MemoryRegistered,
            res matches Ok(fd) ==> fd != -1,
        ensures
            res matches Ok(fd) ==> (r matches Ok(v)
                && v.wf()
                && v.spec_stage() == Stage::VcpuCreated
                && v.spec_stage() == self.spec_stage().spec_next()
                && v.spec_vcpu_fd() == Some(fd)
                && v.spec_sys_fd() == self.spec_sys_fd()
                && v.spec_api_version() == self.spec_api_version()
                && v.spec_vm_fd() == self.spec_vm_fd()
                && v.spec_guest_mem() == self.spec_guest_mem()),
            res matches Err(e) ==> r == Err::<VmInit, InitError>(InitError::VcpuCreationFailed(e)),
    {
        match res {
            Ok(fd) => Ok(VmInit { stage: Stage::VcpuCreated, vcpu_fd: Some(fd), ..self }),
            Err(e) => Err(InitError::VcpuCreationFailed(e)),
        }
    }

    /// Record the outcome of the run-structure size query. Only a positive
    /// size advances the pipeline: a reported size of zero (or less) is an
    /// internal-consistency violation, reported as a failed query carrying
    /// the reported size, and mapping is never attempted after it.
    pub fn run_size_queried(self, res: Result<i32, i32>) -> (r: Result<VmInit, InitError>)
        requires
            self.wf(),
            self.spec_stage() == Stage::VcpuCreated,
        ensures
            res matches Ok(sz) ==> if sz > 0 {
                r matches Ok(v)
                    && v.wf()
                    && v.spec_stage() == Stage::RunSizeKnown
                    && v.spec_stage() == self.spec_stage().spec_next()
                    && v.spec_run_size() == Some(sz)
                    && v.spec_sys_fd() == self.spec_sys_fd()
                    && v.spec_api_version() == self.spec_api_version()
                    && v.spec_vm_fd() == self.spec_vm_fd()
                    && v.spec_guest_mem() == self.spec_guest_mem()
                    && v.spec_vcpu_fd() == self.spec_vcpu_fd()
            } else {
                r == Err::<VmInit, InitError>(InitError::RunSizeQueryFailed(sz))
            },
            res matches Err(e) ==> r == Err::<VmInit, InitError>(InitError::RunSizeQueryFailed(e)),
    {
        match res {
            Ok(sz) => {
                if sz > 0 {
                    Ok(VmInit { stage: Stage::RunSizeKnown, run_size: Some(sz), ..self })
                } else {
                    Err(InitError::RunSizeQueryFailed(sz))
                }
            },
            Err(e) => Err(InitError::RunSizeQueryFailed(e)),
        }
    }

    /// Record the outcome of mapping the run structure over the vCPU
    /// descriptor. On success the pipeline reaches its terminal stage.
    pub fn run_structure_mapped(self, res: Result<u64, i32>) -> (r: Result<VmInit, InitError>)
        requires
            self.wf(),
            self.spec_stage() == Stage::RunSizeKnown,
        ensures
            res matches Ok(addr) ==> (r matches Ok(v)
                && v.wf()
                && v.spec_stage() == Stage::RunMapped
                && v.spec_stage() == self.spec_stage().spec_next()
                && v.spec_run_addr() == Some(addr)
                && v.spec_sys_fd() == self.spec_sys_fd()
                && v.spec_api_version() == self.spec_api_version()
                && v.spec_vm_fd() == self.spec_vm_fd()
                && v.spec_guest_mem() == self.spec_guest_mem()
                && v.spec_vcpu_fd() == self.spec_vcpu_fd()
                && v.spec_run_size() == self.spec_run_size()),
            res matches Err(e) ==> r
                == Err::<VmInit, InitError>(InitError::RunStructureMapFailed(e)),
    {
        match res {
            Ok(addr) => Ok(VmInit { stage: Stage::RunMapped, run_addr: Some(addr), ..self }),
            Err(e) => Err(InitError::RunStructureMapFailed(e)),
        }
    }

    /// The kernel call due at the current stage, with its arguments: the
    /// schedule that fixes the order of the pipeline and the handle each
    /// call is made against.
    pub fn next_action(&self) -> (a: Action)
        requires
            self.wf(),
        ensures
            self.spec_stage() == Stage::Unopened ==> a == Action::OpenDevice,
            self.spec_stage() == Stage::DeviceOpen ==> a == (Action::QueryApiVersion {
                sys_fd: self.spec_sys_fd()->0,
            }),
            self.spec_stage() == Stage::VersionVerified ==> a == (Action::CreateVm {
                sys_fd: self.spec_sys_fd()->0,
            }),
            (self.spec_stage() == Stage::VmCreated && self.spec_guest_mem() is None) ==> a
                == (Action::AllocateGuestMemory { size: crate::region::GUEST_MEMORY_SIZE }),
            (self.spec_stage() == Stage::VmCreated && self.spec_guest_mem() is Some)
                ==> (a matches Action::RegisterMemory { vm_fd, region }
                    && vm_fd == self.spec_vm_fd()->0
                    && region.is_guest_region_for(self.spec_guest_mem()->0)),
            self.spec_stage() == Stage::MemoryRegistered ==> a == (Action::CreateVcpu {
                vm_fd: self.spec_vm_fd()->0,
                index: VCPU_INDEX,
            }),
            self.spec_stage() == Stage::VcpuCreated ==> a == (Action::QueryRunSize {
                sys_fd: self.spec_sys_fd()->0,
            }),
            self.spec_stage() == Stage::RunSizeKnown ==> (a matches Action::MapRunStructure {
                vcpu_fd,
                size,
            } && vcpu_fd == self.spec_vcpu_fd()->0 && size == self.spec_run_size()->0 && size > 0),
            self.spec_stage() == Stage::RunMapped ==> a == Action::Finished,
    {
        match self.stage {
            Stage::Unopened => Action::OpenDevice,
            Stage::DeviceOpen => Action::QueryApiVersion { sys_fd: self.sys_fd() },
            Stage::VersionVerified => Action::CreateVm { sys_fd: self.sys_fd() },
            Stage::VmCreated => {
                match self.guest_mem {
                    None => Action::AllocateGuestMemory { size: crate::region::GUEST_MEMORY_SIZE },
                    Some(_) => Action::RegisterMemory {
                        vm_fd: self.vm_fd(),
                        region: self.memory_region(),
                    },
                }
            },
            Stage::MemoryRegistered => Action::CreateVcpu { vm_fd: self.vm_fd(), index: VCPU_INDEX },
            Stage::VcpuCreated => Action::QueryRunSize { sys_fd: self.sys_fd() },
            Stage::RunSizeKnown => Action::MapRunStructure {
                vcpu_fd: self.vcpu_fd(),
                size: self.run_size(),
            },
            Stage::RunMapped => Action::Finished,
        }
    }
}

/// Resources are acquired in pipeline order: whenever a well-formed
/// pipeline holds a resource, it also holds every resource of an earlier
/// stage. No stage's resource can be observed before its predecessor's.
pub proof fn lemma_resources_in_pipeline_order(s: VmInit)
    requires
        s.wf(),
    ensures
        s.spec_run_addr() is Some ==> s.spec_run_size() is Some,
        s.spec_run_size() is Some ==> s.spec_vcpu_fd() is Some,
        s.spec_vcpu_fd() is Some ==> s.spec_guest_mem() is Some,
        s.spec_guest_mem() is Some ==> s.spec_vm_fd() is Some,
        s.spec_vm_fd() is Some ==> s.spec_api_version() is Some,
        s.spec_api_version() is Some ==> s.spec_sys_fd() is Some,
{
}

/// A pipeline that knows the run-structure size knows a positive one: a
/// reported size of zero never survives the query stage, so the mapping
/// stage can never be entered with it.
pub proof fn lemma_known_run_size_is_positive(s: VmInit)
    requires
        s.wf(),
        s.spec_stage().index() >= Stage::RunSizeKnown.index(),
    ensures
        s.spec_run_size() matches Some(sz) && sz > 0,
{
}

/// A pipeline past the version check holds exactly the expected API
/// version: any other reported version stopped it before a VM context
/// could be created.
pub proof fn lemma_recorded_version_is_expected(s: VmInit)
    requires
        s.wf(),
        s.spec_api_version() is Some,
    ensures
        s.spec_api_version() == Some(EXPECTED_API_VERSION),
{
}

} // verus!
