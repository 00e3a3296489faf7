//! Control plane for katana micro-VM instances: lifecycle state machine,
//! hypervisor argument assembly, port reservation, serial-log tailing and
//! following, and SEV-SNP measurement/attestation checking.

pub mod cli_config;
pub mod errors;
pub mod follow;
pub mod hexstr;
pub mod host;
pub mod instance;
pub mod lifecycle;
pub mod logs;
pub mod models;
pub mod numstr;
pub mod ports;
pub mod qemu;
pub mod storage;
pub mod store;
pub mod strutil;
pub mod tee;

pub use errors::HypervisorError;
