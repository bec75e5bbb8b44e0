//! Verified bring-up of a minimal virtual machine over the kernel's
//! hardware-virtualization interface.
//!
//! The library models the whole initialization pipeline — open the control
//! device, verify the API version, create a VM context, attach guest memory,
//! create a vCPU, and map the run structure — as a linear state machine with
//! proved transition contracts. The kernel calls themselves (device open,
//! control requests, memory mappings) are performed by the embedding program,
//! which feeds each call's outcome back into the pipeline.

pub mod error;
pub mod pipeline;
pub mod region;
pub mod requests;
pub mod stage;
