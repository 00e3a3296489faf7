//! The monitor control channel: a synchronous request/response protocol
//! over the hypervisor's UNIX socket. Each control operation opens a fresh
//! connection, performs the capability negotiation, issues one command and
//! reads one result. The session machine and the exact wire payloads are
//! fixed here; the embedding application owns the socket and carries the
//! bytes, feeding the server's answers back in.

use vstd::prelude::*;

use crate::errors::HypervisorError;
use crate::strutil::str_eq;

verus! {

/// The wire payload of one monitor command.
pub open spec fn spec_qmp_command(name: Seq<char>) -> Seq<char> {
    "{\"execute\":\""@ + name + "\"}"@
}

/// Builds the wire payload of one monitor command.
pub fn qmp_command_payload(name: &str) -> (r: String)
    ensures
        r@ == spec_qmp_command(name@),
{
    "{\"execute\":\"".to_owned().concat(name).concat("\"}")
}

/// One monitor session: the target socket, and whether the capability
/// negotiation has been acknowledged. Commands are handed out only on a
/// negotiated session.
pub struct QmpClient {
    pub socket_path: Option<String>,
    pub negotiated: bool,
}

/// The hypervisor's reported run state.
pub struct VmStatus {
    pub status: String,
    pub running: bool,
}

/// One full control operation over the monitor: the socket to dial, the
/// negotiation payload to send after the server's greeting, and the single
/// command to issue once negotiation is acknowledged.
pub struct MonitorRequest {
    pub socket_path: String,
    pub handshake: String,
    pub command: String,
}

impl QmpClient {
    /// A session with no target and no negotiation yet.
    pub fn new() -> (r: Self)
        ensures
            r.socket_path is None,
            !r.negotiated,
    {
        QmpClient { socket_path: None, negotiated: false }
    }

    /// Binds the session to a monitor socket; negotiation starts afresh.
    /// The embedding application opens the socket and reads the greeting.
    pub fn connect(&mut self, socket_path: &str) -> (r: Result<(), HypervisorError>)
        ensures
            r is Ok,
            final (self).socket_path matches Some(p) && p@ == socket_path@,
            !final (self).negotiated,
    {
        self.socket_path = Some(socket_path.to_owned());
        self.negotiated = false;
        Ok(())
    }

    /// The capability-negotiation payload, sent once the server's greeting
    /// has been read.
    pub fn handshake_command(&self) -> (r: String)
        ensures
            r@ == spec_qmp_command("qmp_capabilities"@),
    {
        qmp_command_payload("qmp_capabilities")
    }

    /// Records the server's answer to the negotiation; only an acknowledged
    /// handshake yields a usable session.
    pub fn complete_handshake(&mut self, acknowledged: bool) -> (r: Result<(), HypervisorError>)
        ensures
            final (self).socket_path == old(self).socket_path,
            final (self).negotiated == acknowledged,
            (r is Ok) == acknowledged,
            !acknowledged ==> (r matches Err(HypervisorError::QemuFailed(m)) && m@
                == "monitor capability negotiation failed"@),
    {
        self.negotiated = acknowledged;
        if acknowledged {
            Ok(())
        } else {
            Err(HypervisorError::QemuFailed("monitor capability negotiation failed".to_owned()))
        }
    }

    /// The payload of one named command, handed out only on a negotiated
    /// session.
    fn command(&self, name: &str) -> (r: Result<String, HypervisorError>)
        ensures
            self.negotiated ==> (r matches Ok(c) && c@ == spec_qmp_command(name@)),
            !self.negotiated ==> (r matches Err(HypervisorError::QemuFailed(m)) && m@
                == "monitor session not negotiated"@),
    {
        if !self.negotiated {
            return Err(HypervisorError::QemuFailed("monitor session not negotiated".to_owned()));
        }
        Ok(qmp_command_payload(name))
    }

    /// The run-state query payload.
    pub fn query_status(&self) -> (r: Result<String, HypervisorError>)
        ensures
            self.negotiated ==> (r matches Ok(c) && c@ == spec_qmp_command("query-status"@)),
            !self.negotiated ==> r is Err,
    {
        self.command("query-status")
    }

    /// The graceful powerdown payload.
    pub fn system_powerdown(&self) -> (r: Result<String, HypervisorError>)
        ensures
            self.negotiated ==> (r matches Ok(c) && c@ == spec_qmp_command("system_powerdown"@)),
            !self.negotiated ==> r is Err,
    {
        self.command("system_powerdown")
    }

    /// The quit payload.
    pub fn quit(&self) -> (r: Result<String, HypervisorError>)
        ensures
            self.negotiated ==> (r matches Ok(c) && c@ == spec_qmp_command("quit"@)),
            !self.negotiated ==> r is Err,
    {
        self.command("quit")
    }

    /// The vCPU-freeze payload.
    pub fn stop(&self) -> (r: Result<String, HypervisorError>)
        ensures
            self.negotiated ==> (r matches Ok(c) && c@ == spec_qmp_command("stop"@)),
            !self.negotiated ==> r is Err,
    {
        self.command("stop")
    }

    /// The vCPU-resume payload.
    pub fn cont(&self) -> (r: Result<String, HypervisorError>)
        ensures
            self.negotiated ==> (r matches Ok(c) && c@ == spec_qmp_command("cont"@)),
            !self.negotiated ==> r is Err,
    {
        self.command("cont")
    }

    /// The suspend-to-RAM payload.
    pub fn system_suspend(&self) -> (r: Result<String, HypervisorError>)
        ensures
            self.negotiated ==> (r matches Ok(c) && c@ == spec_qmp_command("system_suspend"@)),
            !self.negotiated ==> r is Err,
    {
        self.command("system_suspend")
    }

    /// The ACPI wakeup payload.
    pub fn system_wakeup(&self) -> (r: Result<String, HypervisorError>)
        ensures
            self.negotiated ==> (r matches Ok(c) && c@ == spec_qmp_command("system_wakeup"@)),
            !self.negotiated ==> r is Err,
    {
        self.command("system_wakeup")
    }

    /// The hard-reset payload.
    pub fn system_reset(&self) -> (r: Result<String, HypervisorError>)
        ensures
            self.negotiated ==> (r matches Ok(c) && c@ == spec_qmp_command("system_reset"@)),
            !self.negotiated ==> r is Err,
    {
        self.command("system_reset")
    }
}

/// Interprets the run state the monitor reports: the guest counts as
/// running exactly when the reported state is `running`.
pub fn interpret_status(state: &str) -> (r: VmStatus)
    ensures
        r.status@ == state@,
        r.running == (state@ == "running"@),
{
    let running = str_eq(state, "running");
    VmStatus { status: state.to_owned(), running }
}

} // verus!
