//! Hypervisor driver: launch configuration, argument assembly, the monitor
//! control channel, and the process-supervision view of a guest.

pub mod config;
pub mod qmp;
pub mod vm;

pub use config::{QemuConfig, SevSnpConfig};
pub use qmp::{MonitorRequest, QmpClient};
pub use vm::{Vm, VmManager};
