//! Supervision of one hypervisor process: the PID-file handshake's parsing,
//! the liveness probe, and the per-instance handle with its monitor
//! operations. Spawning, signalling and the stop-poll sleeps are host
//! actions the embedding application performs against the decision
//! functions of the lifecycle module.

use vstd::prelude::*;

use crate::errors::HypervisorError;
use crate::host::process_alive;
use crate::numstr::{lemma_digits_val_prefix, spec_all_digits, spec_digits_val};
use crate::qemu::config::QemuConfig;
use crate::qemu::qmp::{qmp_command_payload, spec_qmp_command, MonitorRequest};

verus! {

/// Stateless helpers over hypervisor processes.
pub struct VmManager;

/// ASCII whitespace, as found around a PID in its file.
pub open spec fn spec_is_ws(c: char) -> bool {
    c == ' ' || c == '\t' || c == '\n' || c == '\r'
}

/// `s` with leading and trailing ASCII whitespace removed.
pub open spec fn spec_trim_ws(s: Seq<char>) -> Seq<char>
    decreases s.len(),
{
    if s.len() == 0 {
        s
    } else if spec_is_ws(s[0]) {
        spec_trim_ws(s.skip(1))
    } else if spec_is_ws(s.last()) {
        spec_trim_ws(s.drop_last())
    } else {
        s
    }
}

fn is_ws(c: char) -> (r: bool)
    ensures
        r == spec_is_ws(c),
{
    c == ' ' || c == '\t' || c == '\n' || c == '\r'
}

fn trim_ws(s: &str) -> (r: &str)
    ensures
        r@ == spec_trim_ws(s@),
{
    let mut cur: &str = s;
    loop
        invariant
            spec_trim_ws(s@) == spec_trim_ws(cur@),
        decreases cur@.len(),
    {
        let len = cur.unicode_len();
        if len == 0 {
            return cur;
        }
        if is_ws(cur.get_char(0)) {
            let next = cur.substring_char(1, len);
            proof {
                assert(next@ =~= cur@.skip(1));
            }
            cur = next;
        } else if is_ws(cur.get_char(len - 1)) {
            let next = cur.substring_char(0, len - 1);
            proof {
                assert(next@ =~= cur@.drop_last());
            }
            cur = next;
        } else {
            return cur;
        }
    }
}

/// Parses the decimal PID the hypervisor wrote to its PID file: the trimmed
/// contents must be a nonempty digit string whose value fits a PID.
pub fn parse_pid(contents: &str) -> (r: Result<i32, HypervisorError>)
    ensures
        ({
            let t = spec_trim_ws(contents@);
            &&& ((r is Ok) <==> (t.len() > 0 && spec_all_digits(t) && spec_digits_val(t)
                <= i32::MAX))
            &&& (match r {
                Ok(pid) => pid == spec_digits_val(t),
                Err(HypervisorError::QemuFailed(_)) => true,
                Err(_) => false,
            })
        }),
{
    let t = trim_ws(contents);
    let n = t.unicode_len();
    if n == 0 {
        return Err(HypervisorError::QemuFailed("invalid PID in file".to_owned()));
    }
    let mut acc: u64 = 0;
    let mut i: usize = 0;
    proof {
        assert(t@.take(0) =~= Seq::<char>::empty());
    }
    while i < n
        invariant
            i <= n,
            n == t@.len(),
            t@ == spec_trim_ws(contents@),
            spec_all_digits(t@.take(i as int)),
            acc == spec_digits_val(t@.take(i as int)),
            acc <= i32::MAX,
        decreases n - i,
    {
        let c = t.get_char(i);
        let cv = c as u32;
        proof {
            assert(t@.take(i + 1).drop_last() =~= t@.take(i as int));
        }
        if cv < 48 || cv > 57 {
            proof {
                assert(!spec_all_digits(t@));
            }
            return Err(HypervisorError::QemuFailed("invalid PID in file".to_owned()));
        }
        let d: u64 = (cv - 48) as u64;
        let next: u64 = acc * 10 + d;
        if next > 0x7fff_ffff {
            proof {
                if spec_all_digits(t@) {
                    lemma_digits_val_prefix(t@, i + 1);
                }
            }
            return Err(HypervisorError::QemuFailed("invalid PID in file".to_owned()));
        }
        acc = next;
        i = i + 1;
    }
    proof {
        assert(t@.take(n as int) =~= t@);
    }
    Ok(acc as i32)
}

impl VmManager {
    pub fn new() -> (r: Self)
        ensures
            true,
    {
        VmManager
    }

    /// Whether a process with this PID is alive (a host probe; nothing is
    /// assumed of the outcome).
    pub fn is_process_running(&self, pid: i32) -> bool {
        process_alive(pid)
    }
}

/// One guest instance: its launch configuration and, once launched, the
/// hypervisor's PID.
pub struct Vm {
    pub config: QemuConfig,
    pub pid: Option<i32>,
}

impl Vm {
    /// A handle that has not been launched.
    pub fn new(config: QemuConfig) -> (r: Self)
        ensures
            r.pid is None,
            r.config == config,
    {
        Vm { config, pid: None }
    }

    /// A handle onto an already running hypervisor process.
    pub fn from_running(config: QemuConfig, pid: i32) -> (r: Self)
        ensures
            r.pid == Some(pid),
            r.config == config,
    {
        Vm { config, pid: Some(pid) }
    }

    /// The hypervisor PID, if launched.
    pub fn pid(&self) -> (r: Option<i32>)
        ensures
            r == self.pid,
    {
        self.pid
    }

    /// The launch configuration.
    pub fn config(&self) -> (r: &QemuConfig)
        ensures
            r == &self.config,
    {
        &self.config
    }

    /// The monitor socket path.
    pub fn qmp_socket(&self) -> (r: &str)
        ensures
            r@ == self.config.qmp_socket@,
    {
        self.config.qmp_socket.as_str()
    }

    /// The PID file path.
    pub fn pid_file(&self) -> (r: &str)
        ensures
            r@ == self.config.pid_file@,
    {
        self.config.pid_file.as_str()
    }

    /// The serial log path.
    pub fn serial_log(&self) -> (r: &str)
        ensures
            r@ == self.config.serial_log@,
    {
        self.config.serial_log.as_str()
    }

    /// The PID, or the error every control operation gives before launch.
    pub fn require_pid(&self) -> (r: Result<i32, HypervisorError>)
        ensures
            match r {
                Ok(pid) => self.pid == Some(pid),
                Err(HypervisorError::QemuFailed(m)) => self.pid is None && m@
                    == "VM is not running"@,
                Err(_) => false,
            },
    {
        match self.pid {
            Some(pid) => Ok(pid),
            None => Err(HypervisorError::QemuFailed("VM is not running".to_owned())),
        }
    }

    /// Whether the guest's process is alive: false before launch, otherwise
    /// the host probe's answer.
    pub fn is_running(&self) -> (r: bool)
        ensures
            self.pid is None ==> r == false,
    {
        match self.pid {
            Some(pid) => process_alive(pid),
            None => false,
        }
    }

    /// One monitor operation against this guest: the socket to dial, the
    /// negotiation payload, and the command to issue.
    fn monitor_request(&self, command_name: &str) -> (r: Result<
        MonitorRequest,
        HypervisorError,
    >)
        ensures
            match r {
                Ok(req) => {
                    &&& self.pid is Some
                    &&& req.socket_path@ == self.config.qmp_socket@
                    &&& req.handshake@ == spec_qmp_command("qmp_capabilities"@)
                    &&& req.command@ == spec_qmp_command(command_name@)
                },
                Err(HypervisorError::QemuFailed(m)) => self.pid is None && m@
                    == "VM is not running"@,
                Err(_) => false,
            },
    {
        let _pid = match self.require_pid() {
            Ok(p) => p,
            Err(e) => {
                return Err(e);
            },
        };
        Ok(
            MonitorRequest {
                socket_path: self.config.qmp_socket.clone(),
                handshake: qmp_command_payload("qmp_capabilities"),
                command: qmp_command_payload(command_name),
            },
        )
    }

    /// Freezing the vCPUs: the monitor operation carrying the `stop`
    /// command, refused before launch.
    pub fn pause(&self) -> (r: Result<MonitorRequest, HypervisorError>)
        ensures
            match r {
                Ok(req) => {
                    &&& self.pid is Some
                    &&& req.socket_path@ == self.config.qmp_socket@
                    &&& req.handshake@ == spec_qmp_command("qmp_capabilities"@)
                    &&& req.command@ == spec_qmp_command("stop"@)
                },
                Err(HypervisorError::QemuFailed(m)) => self.pid is None && m@
                    == "VM is not running"@,
                Err(_) => false,
            },
    {
        self.monitor_request("stop")
    }

    /// Resuming the vCPUs: the monitor operation carrying the `cont`
    /// command, refused before launch.
    pub fn resume(&self) -> (r: Result<MonitorRequest, HypervisorError>)
        ensures
            match r {
                Ok(req) => {
                    &&& self.pid is Some
                    &&& req.socket_path@ == self.config.qmp_socket@
                    &&& req.handshake@ == spec_qmp_command("qmp_capabilities"@)
                    &&& req.command@ == spec_qmp_command("cont"@)
                },
                Err(HypervisorError::QemuFailed(m)) => self.pid is None && m@
                    == "VM is not running"@,
                Err(_) => false,
            },
    {
        self.monitor_request("cont")
    }

    /// Suspend to RAM: the monitor operation carrying the `system_suspend`
    /// command, refused before launch.
    pub fn suspend(&self) -> (r: Result<MonitorRequest, HypervisorError>)
        ensures
            match r {
                Ok(req) => {
                    &&& self.pid is Some
                    &&& req.socket_path@ == self.config.qmp_socket@
                    &&& req.handshake@ == spec_qmp_command("qmp_capabilities"@)
                    &&& req.command@ == spec_qmp_command("system_suspend"@)
                },
                Err(HypervisorError::QemuFailed(m)) => self.pid is None && m@
                    == "VM is not running"@,
                Err(_) => false,
            },
    {
        self.monitor_request("system_suspend")
    }

    /// ACPI wakeup: the monitor operation carrying the `system_wakeup`
    /// command, refused before launch.
    pub fn wake(&self) -> (r: Result<MonitorRequest, HypervisorError>)
        ensures
            match r {
                Ok(req) => {
                    &&& self.pid is Some
                    &&& req.socket_path@ == self.config.qmp_socket@
                    &&& req.handshake@ == spec_qmp_command("qmp_capabilities"@)
                    &&& req.command@ == spec_qmp_command("system_wakeup"@)
                },
                Err(HypervisorError::QemuFailed(m)) => self.pid is None && m@
                    == "VM is not running"@,
                Err(_) => false,
            },
    {
        self.monitor_request("system_wakeup")
    }

    /// Hard reset: the monitor operation carrying the `system_reset`
    /// command, refused before launch.
    pub fn reset(&self) -> (r: Result<MonitorRequest, HypervisorError>)
        ensures
            match r {
                Ok(req) => {
                    &&& self.pid is Some
                    &&& req.socket_path@ == self.config.qmp_socket@
                    &&& req.handshake@ == spec_qmp_command("qmp_capabilities"@)
                    &&& req.command@ == spec_qmp_command("system_reset"@)
                },
                Err(HypervisorError::QemuFailed(m)) => self.pid is None && m@
                    == "VM is not running"@,
                Err(_) => false,
            },
    {
        self.monitor_request("system_reset")
    }
}

} // verus!
