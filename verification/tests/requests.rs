use kvm_init::requests::{expected_api_version, request_code, ControlRequest};

/// The no-payload request codes: interface type byte 0xAE in bits 8..15,
/// the request number in bits 0..7, and nothing else.
#[test]
fn no_payload_request_codes() {
    assert_eq!(request_code(ControlRequest::GetApiVersion), 0xAE00);
    assert_eq!(request_code(ControlRequest::CreateVm), 0xAE01);
    assert_eq!(request_code(ControlRequest::GetVcpuMmapSize), 0xAE04);
    assert_eq!(request_code(ControlRequest::CreateVcpu), 0xAE41);
}

/// The memory-region registration writes a 32-byte payload to the kernel:
/// direction 1 in bits 30..31 and size 32 in bits 16..29.
#[test]
fn memory_region_request_code() {
    assert_eq!(request_code(ControlRequest::SetUserMemoryRegion), 0x4020_AE46);
}

/// The codes agree with what the binding crate's own ioctl machinery
/// produces for the same requests.
#[test]
fn codes_match_binding_encoding() {
    let ty = u64::from(kvm_bindings::KVMIO);
    assert_eq!(request_code(ControlRequest::GetApiVersion), ty << 8);
    assert_eq!(request_code(ControlRequest::CreateVm), (ty << 8) | 0x01);
    let size = std::mem::size_of::<kvm_bindings::kvm_userspace_memory_region>() as u64;
    assert_eq!(
        request_code(ControlRequest::SetUserMemoryRegion),
        (1 << 30) | (size << 16) | (ty << 8) | 0x46
    );
}

/// The accepted API version is the one the binding crate states.
#[test]
fn expected_version_matches_binding() {
    assert_eq!(expected_api_version(), 12);
    assert_eq!(expected_api_version() as u32, kvm_bindings::KVM_API_VERSION);
}
