use kvm_init::error::{InitError, FAILURE_EXIT_CODE};

/// Every variant names its own failing operation.
#[test]
fn step_names_identify_the_failing_operation() {
    assert_eq!(
        InitError::DeviceUnavailable(2).step_name(),
        "opening the virtualization control device"
    );
    assert_eq!(
        InitError::IncompatibleApiVersion(11).step_name(),
        "verifying the virtualization API version"
    );
    assert_eq!(
        InitError::VmCreationFailed(12).step_name(),
        "creating the VM context"
    );
    assert_eq!(
        InitError::MemoryMapFailed(12).step_name(),
        "allocating guest memory"
    );
    assert_eq!(
        InitError::MemoryRegistrationFailed(22).step_name(),
        "registering guest memory"
    );
    assert_eq!(
        InitError::VcpuCreationFailed(22).step_name(),
        "creating the vCPU"
    );
    assert_eq!(
        InitError::RunSizeQueryFailed(0).step_name(),
        "querying the run-structure size"
    );
    assert_eq!(
        InitError::RunStructureMapFailed(12).step_name(),
        "mapping the run structure"
    );
}

/// Every variant carries the raw value it was built with.
#[test]
fn os_error_returns_the_wrapped_value() {
    assert_eq!(InitError::DeviceUnavailable(2).os_error(), 2);
    assert_eq!(InitError::IncompatibleApiVersion(11).os_error(), 11);
    assert_eq!(InitError::VmCreationFailed(12).os_error(), 12);
    assert_eq!(InitError::MemoryMapFailed(13).os_error(), 13);
    assert_eq!(InitError::MemoryRegistrationFailed(22).os_error(), 22);
    assert_eq!(InitError::VcpuCreationFailed(9).os_error(), 9);
    assert_eq!(InitError::RunSizeQueryFailed(0).os_error(), 0);
    assert_eq!(InitError::RunStructureMapFailed(12).os_error(), 12);
}

/// Only a failure of the control device itself is a startup abort; every
/// failure exits with the one non-zero code.
#[test]
fn abort_and_exit_code_classification() {
    assert!(InitError::DeviceUnavailable(2).is_startup_abort());
    assert!(!InitError::IncompatibleApiVersion(11).is_startup_abort());
    assert!(!InitError::VmCreationFailed(1).is_startup_abort());
    assert!(!InitError::MemoryMapFailed(1).is_startup_abort());
    assert!(!InitError::MemoryRegistrationFailed(1).is_startup_abort());
    assert!(!InitError::VcpuCreationFailed(1).is_startup_abort());
    assert!(!InitError::RunSizeQueryFailed(1).is_startup_abort());
    assert!(!InitError::RunStructureMapFailed(1).is_startup_abort());

    assert_eq!(FAILURE_EXIT_CODE, 1);
    assert_eq!(InitError::VmCreationFailed(12).exit_code(), 1);
    assert_ne!(InitError::RunStructureMapFailed(12).exit_code(), 0);
}
