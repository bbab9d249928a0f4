//! Core logic of a microVM container runtime: the guest image and overlay
//! engine, the host/guest control protocol, OCI bundle synthesis, process
//! identity, storage disk planning and the VM record store.

pub mod validation;
pub mod oci;
pub mod frame;
pub mod paths;
pub mod layers;
pub mod protocol;
pub mod process;
pub mod util;
pub mod config;
pub mod agent;
pub mod storage;
pub mod cli;
pub mod rootfs;
pub mod runtime;
pub mod supervisor;
pub mod vm;
