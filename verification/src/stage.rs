//! The stages of the initialization pipeline.
//!
//! Bring-up is strictly linear: each stage is reached by exactly one
//! successful kernel interaction, and a failure at any stage is terminal.

use vstd::prelude::*;

verus! {

/// How far the initialization pipeline has progressed. Transitions only ever
/// move one stage forward; `RunMapped` is the terminal stage.
#[derive(Clone, Copy, Debug, PartialEq, Eq, Structural)]
pub enum Stage {
    /// Nothing acquired yet.
    Unopened,
    /// The virtualization control device is open.
    DeviceOpen,
    /// The kernel reported the one API version this library was built against.
    VersionVerified,
    /// A VM context exists.
    VmCreated,
    /// Guest memory is registered with the VM context.
    MemoryRegistered,
    /// A vCPU exists.
    VcpuCreated,
    /// The kernel reported a positive size for the run structure.
    RunSizeKnown,
    /// The run structure is mapped; bring-up is complete.
    RunMapped,
}

impl Stage {
    /// Position of this stage in the pipeline order, starting from 0.
    pub open spec fn index(self) -> int {
        match self {
            Stage::Unopened => 0,
            Stage::DeviceOpen => 1,
            Stage::VersionVerified => 2,
            Stage::VmCreated => 3,
            Stage::MemoryRegistered => 4,
            Stage::VcpuCreated => 5,
            Stage::RunSizeKnown => 6,
            Stage::RunMapped => 7,
        }
    }

    /// The stage that one more successful kernel interaction reaches.
    pub open spec fn spec_next(self) -> Stage
        recommends
            self != Stage::RunMapped,
    {
        match self {
            Stage::Unopened => Stage::DeviceOpen,
            Stage::DeviceOpen => Stage::VersionVerified,
            Stage::VersionVerified => Stage::VmCreated,
            Stage::VmCreated => Stage::MemoryRegistered,
            Stage::MemoryRegistered => Stage::VcpuCreated,
            Stage::VcpuCreated => Stage::RunSizeKnown,
            Stage::RunSizeKnown => Stage::RunMapped,
            Stage::RunMapped => Stage::RunMapped,
        }
    }

    /// Whether the pipeline is finished.
    pub fn is_terminal(&self) -> (r: bool)
        ensures
            r <==> *self == Stage::RunMapped,
    {
        matches!(self, Stage::RunMapped)
    }
}

/// A successor stage sits exactly one position later in the pipeline order.
pub proof fn lemma_next_advances_by_one(s: Stage)
    requires
        s != Stage::RunMapped,
    ensures
        s.spec_next().index() == s.index() + 1,
{
}

} // verus!
