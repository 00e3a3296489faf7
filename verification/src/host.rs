//! Probes of host state (clock, filesystem presence, process liveness, port
//! availability). Every result here depends on the machine at the moment of
//! the call, so none of these promises anything about the value returned;
//! callers state what holds of every outcome.

use vstd::prelude::*;

verus! {

/// Relies on chrono's `Utc::now().timestamp()`: seconds since the Unix
/// epoch at the moment of the call. Nothing is assumed of the value.
#[verifier::external_body]
pub fn now_epoch_seconds() -> i64 {
    chrono::Utc::now().timestamp()
}

/// Relies on std's `Path::exists`: whether `path` named an existing
/// filesystem entry at the moment of the probe. Nothing is assumed of the
/// result.
#[verifier::external_body]
pub fn path_exists(path: &str) -> bool {
    std::path::Path::new(path).exists()
}

/// Relies on nix's `signal::kill` with no signal (the signal-zero probe):
/// whether a process with this PID existed and was signallable at the moment
/// of the probe. Nothing is assumed of the result.
#[verifier::external_body]
pub fn process_alive(pid: i32) -> bool {
    nix::sys::signal::kill(nix::unistd::Pid::from_raw(pid), None).is_ok()
}

/// Relies on port_scanner's `local_port_available`: whether a bind of
/// `127.0.0.1:port` succeeded (and was released) at the moment of the probe.
/// Nothing is assumed of the result.
#[verifier::external_body]
pub fn local_port_free(port: u16) -> bool {
    port_scanner::local_port_available(port)
}

} // verus!
