//! The closed table of kernel control requests this library issues.
//!
//! The binding layer does not export the numeric request codes, so they are
//! stated here once, as one table per operation, using the kernel's generic
//! request encoding: direction, payload size, interface type byte and
//! request number packed into one integer. The interface type byte, the one
//! supported API version and the payload size of a memory-region
//! registration are taken from the binding crate through trusted wrappers,
//! so the table stays tied to the kernel interface definition it encodes.

use vstd::prelude::*;

verus! {

/// The interface type byte that marks a control request as belonging to the
/// kernel's virtualization interface.
pub const KVM_REQUEST_TYPE: u64 = 0xAE;

/// The one API version this library was built against.
pub const EXPECTED_API_VERSION: i32 = 12;

/// Byte size of the memory-region payload handed to `SetUserMemoryRegion`:
/// two 32-bit and three 64-bit fields.
pub const MEMORY_REGION_PAYLOAD_SIZE: u64 = 32;

/// Direction bit of a request that carries no payload.
pub const DIR_NO_PAYLOAD: u64 = 0;

/// Direction bit of a request whose payload is written to the kernel.
pub const DIR_WRITE_PAYLOAD: u64 = 1;

/// The control requests the initialization pipeline issues.
#[derive(Clone, Copy, Debug, PartialEq, Eq, Structural)]
pub enum ControlRequest {
    /// Ask the control device for its API version. No payload.
    GetApiVersion,
    /// Ask the control device for a new VM descriptor. No payload.
    CreateVm,
    /// Ask a VM descriptor for a new vCPU descriptor; the vCPU index rides
    /// in the request's argument, not in a payload structure.
    CreateVcpu,
    /// Ask the control device for the byte size of the per-vCPU run
    /// structure. No payload.
    GetVcpuMmapSize,
    /// Hand a VM descriptor a memory-region payload to register as guest
    /// RAM.
    SetUserMemoryRegion,
}

impl ControlRequest {
    /// Whether the request writes a payload structure to the kernel.
    pub open spec fn writes_payload(self) -> bool {
        self is SetUserMemoryRegion
    }

    /// Byte size of the request's payload; 0 where there is none.
    pub open spec fn payload_size(self) -> u64 {
        if self.writes_payload() {
            MEMORY_REGION_PAYLOAD_SIZE
        } else {
            0
        }
    }

    /// The request number within the virtualization interface.
    pub open spec fn request_number(self) -> u64 {
        match self {
            ControlRequest::GetApiVersion => 0x00,
            ControlRequest::CreateVm => 0x01,
            ControlRequest::CreateVcpu => 0x41,
            ControlRequest::GetVcpuMmapSize => 0x04,
            ControlRequest::SetUserMemoryRegion => 0x46,
        }
    }

    /// The full numeric request code, in the kernel's generic encoding:
    /// direction in bits 30..31, payload size in bits 16..29, interface
    /// type byte in bits 8..15, request number in bits 0..7.
    pub open spec fn spec_code(self) -> u64 {
        encode_request(
            if self.writes_payload() {
                DIR_WRITE_PAYLOAD
            } else {
                DIR_NO_PAYLOAD
            },
            self.payload_size(),
            KVM_REQUEST_TYPE,
            self.request_number(),
        )
    }
}

/// The kernel's generic request encoding, written with multiplications by
/// the field bases so that it stays in linear arithmetic.
pub open spec fn encode_request(dir: u64, size: u64, ty: u64, nr: u64) -> u64
    recommends
        dir < 4,
        size < 0x4000,
        ty < 0x100,
        nr < 0x100,
{
    (dir * 0x4000_0000 + size * 0x1_0000 + ty * 0x100 + nr) as u64
}

/// Relies on `kvm_bindings::KVMIO`: the interface type byte of the kernel's
/// virtualization interface, 174 (0xAE).
#[verifier::external_body]
fn binding_interface_type() -> (r: u32)
    ensures
        r == 0xAEu32,
{
    kvm_bindings::KVMIO
}

/// Relies on `kvm_bindings::KVM_API_VERSION`: the stable API version of the
/// kernel's virtualization interface, 12.
#[verifier::external_body]
fn binding_api_version() -> (r: u32)
    ensures
        r == 12u32,
{
    kvm_bindings::KVM_API_VERSION
}

/// Relies on the layout of `kvm_bindings::kvm_userspace_memory_region`: a
/// C-layout structure of two 32-bit and three 64-bit fields, 32 bytes in
/// all, which the binding crate asserts at compile time.
#[verifier::external_body]
fn binding_memory_region_size() -> (r: u64)
    ensures
        r == 32u64,
{
    core::mem::size_of::<kvm_bindings::kvm_userspace_memory_region>() as u64
}

/// The API version the pipeline accepts, as the binding crate states it.
pub fn expected_api_version() -> (v: i32)
    ensures
        v == EXPECTED_API_VERSION,
{
    let v: u32 = binding_api_version();
    v as i32
}

/// The numeric code of a control request, for handing to the kernel's
/// request interface.
pub fn request_code(r: ControlRequest) -> (c: u64)
    ensures
        c == r.spec_code(),
{
    let ty: u64 = binding_interface_type() as u64;
    match r {
        ControlRequest::GetApiVersion => ty * 0x100,
        ControlRequest::CreateVm => ty * 0x100 + 0x01,
        ControlRequest::CreateVcpu => ty * 0x100 + 0x41,
        ControlRequest::GetVcpuMmapSize => ty * 0x100 + 0x04,
        ControlRequest::SetUserMemoryRegion => {
            let size: u64 = binding_memory_region_size();
            DIR_WRITE_PAYLOAD * 0x4000_0000 + size * 0x1_0000 + ty * 0x100 + 0x46
        },
    }
}

} // verus!
