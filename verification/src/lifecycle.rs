//! The lifecycle coordinator: planning and committing the transitions of
//! the instance state machine (`Created → Starting → Running → Stopping →
//! Stopped | Failed`). Planning functions are pure reads; the embedding
//! application performs the host actions they call for (spawn, signals,
//! waits) and commits the outcome through the transition functions.

use vstd::prelude::*;

use crate::errors::HypervisorError;
use crate::host::now_epoch_seconds;
use crate::instance::{
    config_wf, instance_ok, spec_is_active, spec_status_label, InstanceConfig, InstanceState,
    InstanceStatus,
};
use crate::ports::PortAllocator;
use crate::qemu::config::{spec_kernel_cmdline, QemuConfig, SevSnpConfig};
use crate::store::{has_id, has_name, has_port, port_match, StateStore};

verus! {

/// What a `start` request should do, as a function of the persisted status
/// and the presence of the boot components.
pub enum StartDecision {
    /// The instance is already Running: succeed with no side effect.
    AlreadyRunning,
    /// A transition is in flight (Starting or Stopping): refuse.
    Refused,
    /// A boot component is missing: fail before any status mutation.
    MissingBoot,
    /// Spawn the hypervisor.
    Launch,
}

/// The start decision table.
pub open spec fn spec_start_decision(s: InstanceStatus, kernel_exists: bool, initrd_exists: bool) -> StartDecision {
    if s is Running {
        StartDecision::AlreadyRunning
    } else if s is Starting || s is Stopping {
        StartDecision::Refused
    } else if !kernel_exists || !initrd_exists {
        StartDecision::MissingBoot
    } else {
        StartDecision::Launch
    }
}

/// What a `stop` request should do, as a function of the persisted status.
pub enum StopDecision {
    /// Already Stopped (or already Stopping): succeed with no side effect.
    AlreadyStopped,
    /// Signal the process.
    Stop,
    /// Not running at all: refuse.
    Refused,
}

/// The stop decision table.
pub open spec fn spec_stop_decision(s: InstanceStatus) -> StopDecision {
    match s {
        InstanceStatus::Stopped => StopDecision::AlreadyStopped,
        InstanceStatus::Stopping => StopDecision::AlreadyStopped,
        InstanceStatus::Running => StopDecision::Stop,
        _ => StopDecision::Refused,
    }
}

/// Law: `start` is idempotent on Running. For a Running instance the start
/// decision is `AlreadyRunning` — no second hypervisor is launched and no
/// store mutation is planned, whatever the boot-component probes said; two
/// sequential starts therefore leave one process and an unchanged PID.
pub proof fn lemma_start_idempotent_on_running(
    s: InstanceStatus,
    kernel_exists: bool,
    initrd_exists: bool,
)
    requires
        s is Running,
    ensures
        spec_start_decision(s, kernel_exists, initrd_exists) is AlreadyRunning,
{
}

/// Law: `stop` is idempotent on Stopped. For a Stopped instance the stop
/// decision is `AlreadyStopped` — no signal is sent and no store mutation is
/// planned.
pub proof fn lemma_stop_idempotent_on_stopped(s: InstanceStatus)
    requires
        s is Stopped,
    ensures
        spec_stop_decision(s) is AlreadyStopped,
{
}

/// Field-wise equality of two configurations except for the RPC port,
/// which creation may assign.
pub open spec fn config_eq_except_port(a: InstanceConfig, b: InstanceConfig) -> bool {
    &&& a.vcpus == b.vcpus
    &&& a.memory_mb == b.memory_mb
    &&& a.storage_bytes == b.storage_bytes
    &&& a.vcpu_type@ == b.vcpu_type@
    &&& a.tee_mode == b.tee_mode
    &&& a.kernel_path@ == b.kernel_path@
    &&& a.initrd_path@ == b.initrd_path@
    &&& match (a.ovmf_path, b.ovmf_path) {
        (Some(x), Some(y)) => x@ == y@,
        (None, None) => true,
        _ => false,
    }
    &&& match (a.expected_measurement, b.expected_measurement) {
        (Some(x), Some(y)) => x@ == y@,
        (None, None) => true,
        _ => false,
    }
    &&& a.katana_args.deep_view() == b.katana_args.deep_view()
}

/// The outcome of planning a start.
pub enum StartPlan {
    /// Succeed with no side effect.
    AlreadyRunning,
    /// Spawn the hypervisor with this configuration, then commit through
    /// `complete_start` or `fail_start`.
    Launch(QemuConfig),
}

/// The outcome of planning a stop.
pub enum StopPlan {
    /// Succeed with no side effect.
    AlreadyStopped,
    /// Signal this PID, then commit through `complete_stop`.
    Stop(i32),
}

/// The outcome of planning a delete.
pub enum DeletePlan {
    /// Force-kill this PID first, then delete.
    Kill(i32),
    /// Delete directly.
    Plain,
}

/// While a stop is in flight: what to do after a liveness poll.
pub enum StopAction {
    /// The process is gone; commit the stop.
    Done,
    /// Still alive and within the timeout; poll again.
    Wait,
    /// Still alive past the timeout; force-kill.
    ForceKill,
}

/// The hypervisor configuration the start algorithm derives from a
/// persisted instance.
pub open spec fn qemu_config_matches(r: QemuConfig, s: InstanceState) -> bool {
    &&& r.memory_mb == s.config.memory_mb
    &&& r.vcpus == s.config.vcpus
    &&& r.cpu_type@ == s.config.vcpu_type@
    &&& r.kernel_path@ == s.config.kernel_path@
    &&& r.initrd_path@ == s.config.initrd_path@
    &&& match (r.bios_path, s.config.ovmf_path) {
        (Some(x), Some(y)) => x@ == y@,
        (None, None) => true,
        _ => false,
    }
    &&& r.kernel_cmdline@ == spec_kernel_cmdline(s.config.katana_args.deep_view())
    &&& r.rpc_port == s.config.rpc_port
    &&& r.disk_image is None
    &&& (s.qmp_socket matches Some(q) && r.qmp_socket@ == q@)
    &&& (s.serial_log matches Some(l) && r.serial_log@ == l@)
    &&& r.pid_file@ == "/tmp/katana-hypervisor-"@ + s.id@ + ".pid"@
    &&& match r.sev_snp {
        Some(sev) => s.config.tee_mode && sev.cbitpos == 51 && sev.reduced_phys_bits == 1
            && sev.vcpu_type@ == s.config.vcpu_type@,
        None => !s.config.tee_mode,
    }
    &&& r.enable_kvm == true
}

/// Derives the hypervisor configuration for one instance.
pub fn build_qemu_config(state: &InstanceState) -> (r: QemuConfig)
    requires
        state.qmp_socket is Some,
        state.serial_log is Some,
    ensures
        qemu_config_matches(r, *state),
{
    let katana_args = state.config.build_katana_args();
    let kernel_cmdline = QemuConfig::build_kernel_cmdline(&katana_args);

    let sev_snp = if state.config.tee_mode {
        Some(
            SevSnpConfig {
                cbitpos: 51,
                reduced_phys_bits: 1,
                vcpu_type: state.config.vcpu_type.clone(),
            },
        )
    } else {
        None
    };

    let qmp_socket = match &state.qmp_socket {
        Some(q) => q.clone(),
        None => String::new(),
    };
    let serial_log = match &state.serial_log {
        Some(l) => l.clone(),
        None => String::new(),
    };

    QemuConfig {
        memory_mb: state.config.memory_mb,
        vcpus: state.config.vcpus,
        cpu_type: state.config.vcpu_type.clone(),
        kernel_path: state.config.kernel_path.clone(),
        initrd_path: state.config.initrd_path.clone(),
        bios_path: match &state.config.ovmf_path {
            Some(p) => Some(p.clone()),
            None => None,
        },
        kernel_cmdline,
        rpc_port: state.config.rpc_port,
        disk_image: None,
        qmp_socket,
        serial_log,
        pid_file: "/tmp/katana-hypervisor-".to_owned().concat(state.id.as_str()).concat(".pid"),
        sev_snp,
        enable_kvm: true,
    }
}

/// Plans a start: idempotent success on Running, refusal while a transition
/// is in flight, failure before any mutation when a boot component is
/// missing, and otherwise the configuration to launch.
pub fn plan_start(state: &InstanceState, kernel_exists: bool, initrd_exists: bool) -> (r: Result<
    StartPlan,
    HypervisorError,
>)
    requires
        (spec_start_decision(state.status, kernel_exists, initrd_exists) is Launch)
            ==> state.qmp_socket is Some && state.serial_log is Some,
    ensures
        match r {
            Ok(StartPlan::AlreadyRunning) => spec_start_decision(
                state.status,
                kernel_exists,
                initrd_exists,
            ) is AlreadyRunning,
            Ok(StartPlan::Launch(cfg)) => spec_start_decision(
                state.status,
                kernel_exists,
                initrd_exists,
            ) is Launch && qemu_config_matches(cfg, *state),
            Err(HypervisorError::InvalidStateTransition { from, to }) => spec_start_decision(
                state.status,
                kernel_exists,
                initrd_exists,
            ) is Refused && from@ == spec_status_label(state.status) && to@ == "running"@,
            Err(HypervisorError::Io(_)) => spec_start_decision(
                state.status,
                kernel_exists,
                initrd_exists,
            ) is MissingBoot,
            _ => false,
        },
{
    match &state.status {
        InstanceStatus::Running => Ok(StartPlan::AlreadyRunning),
        InstanceStatus::Starting | InstanceStatus::Stopping => Err(
            HypervisorError::InvalidStateTransition {
                from: state.status.label(),
                to: "running".to_owned(),
            },
        ),
        _ => {
            if !kernel_exists {
                return Err(
                    HypervisorError::Io(
                        "kernel not found; build the boot components first".to_owned(),
                    ),
                );
            }
            if !initrd_exists {
                return Err(
                    HypervisorError::Io(
                        "initrd not found; build the boot components first".to_owned(),
                    ),
                );
            }
            Ok(StartPlan::Launch(build_qemu_config(state)))
        },
    }
}

/// Plans a stop: idempotent success on Stopped (and on a stop already in
/// flight), the PID to signal on Running, and refusal otherwise.
pub fn plan_stop(state: &InstanceState) -> (r: Result<StopPlan, HypervisorError>)
    requires
        instance_ok(*state),
    ensures
        match r {
            Ok(StopPlan::AlreadyStopped) => spec_stop_decision(state.status) is AlreadyStopped,
            Ok(StopPlan::Stop(pid)) => spec_stop_decision(state.status) is Stop && state.vm_pid
                == Some(pid),
            Err(HypervisorError::InvalidStateTransition { from, to }) => spec_stop_decision(
                state.status,
            ) is Refused && from@ == spec_status_label(state.status) && to@ == "stopped"@,
            _ => false,
        },
{
    match &state.status {
        InstanceStatus::Stopped | InstanceStatus::Stopping => Ok(StopPlan::AlreadyStopped),
        InstanceStatus::Running => {
            match state.vm_pid {
                Some(pid) => Ok(StopPlan::Stop(pid)),
                None => Err(
                    HypervisorError::InvalidStateTransition {
                        from: state.status.label(),
                        to: "stopped".to_owned(),
                    },
                ),
            }
        },
        _ => Err(
            HypervisorError::InvalidStateTransition {
                from: state.status.label(),
                to: "stopped".to_owned(),
            },
        ),
    }
}

/// Plans a delete: a Running instance is refused unless forced, in which
/// case its process is killed first.
pub fn plan_delete(state: &InstanceState, force: bool) -> (r: Result<
    DeletePlan,
    HypervisorError,
>)
    requires
        instance_ok(*state),
    ensures
        match r {
            Ok(DeletePlan::Kill(pid)) => state.status is Running && force && state.vm_pid == Some(
                pid,
            ),
            Ok(DeletePlan::Plain) => !(state.status is Running),
            Err(HypervisorError::InvalidStateTransition { from, to }) => state.status is Running
                && !force && from@ == spec_status_label(state.status) && to@ == "deleted"@,
            _ => false,
        },
{
    match &state.status {
        InstanceStatus::Running => {
            if !force {
                return Err(
                    HypervisorError::InvalidStateTransition {
                        from: state.status.label(),
                        to: "deleted".to_owned(),
                    },
                );
            }
            match state.vm_pid {
                Some(pid) => Ok(DeletePlan::Kill(pid)),
                None => Ok(DeletePlan::Plain),
            }
        },
        _ => Ok(DeletePlan::Plain),
    }
}

/// While a stop is in flight: done when the process is gone, wait while the
/// timeout has not elapsed, force-kill past it.
pub fn stop_poll_action(alive: bool, elapsed_secs: u64, timeout_secs: u64) -> (r: StopAction)
    ensures
        !alive ==> r is Done,
        alive && elapsed_secs < timeout_secs ==> r is Wait,
        alive && elapsed_secs >= timeout_secs ==> r is ForceKill,
{
    if !alive {
        StopAction::Done
    } else if elapsed_secs < timeout_secs {
        StopAction::Wait
    } else {
        StopAction::ForceKill
    }
}

/// Creates an instance: refuses a taken name, reserves the RPC port (the
/// requested one, or the first free candidate from `base_port`), and inserts
/// the instance row and its port reservation in one transaction.
pub fn create_new_instance(
    store: &mut StateStore,
    allocator: &PortAllocator,
    id: String,
    name: String,
    config: InstanceConfig,
    requested_port: Option<u16>,
    base_port: u16,
    qmp_socket: String,
    serial_log: String,
) -> (r: Result<InstanceState, HypervisorError>)
    requires
        old(store).wf(),
        config_wf(config),
    ensures
        final (store).wf(),
        old(store).covered() ==> final (store).covered(),
        (has_name(old(store).instances@, name@) || has_id(old(store).instances@, id@)) ==> (
        r matches Err(HypervisorError::InstanceAlreadyExists(_))),
        match r {
            Ok(st) => {
                &&& !has_name(old(store).instances@, name@)
                &&& !has_id(old(store).instances@, id@)
                &&& st.id@ == id@
                &&& st.name@ == name@
                &&& st.status is Created
                &&& st.vm_pid is None
                &&& (st.qmp_socket matches Some(q) && q@ == qmp_socket@)
                &&& (st.serial_log matches Some(l) && l@ == serial_log@)
                &&& (requested_port matches Some(p) ==> st.config.rpc_port == p)
                &&& !has_port(old(store).ports@, st.config.rpc_port)
                &&& config_eq_except_port(st.config, config)
                &&& final (store).instances@.len() == old(store).instances@.len() + 1
                &&& crate::instance::state_eq(final (store).instances@.last(), st)
                &&& port_match(final (store).ports@.last(), st)
            },
            Err(HypervisorError::InstanceAlreadyExists(n)) => {
                &&& (has_name(old(store).instances@, name@) || has_id(old(store).instances@, id@))
                &&& n@ == name@
                &&& final (store).instances@ == old(store).instances@
                &&& final (store).ports@ == old(store).ports@
            },
            Err(HypervisorError::PortUnavailable(p)) => {
                &&& requested_port == Some(p)
                &&& !has_name(old(store).instances@, name@)
                &&& !has_id(old(store).instances@, id@)
                &&& final (store).instances@ == old(store).instances@
                &&& final (store).ports@ == old(store).ports@
            },
            Err(HypervisorError::NoPortsAvailable) => {
                &&& requested_port is None
                &&& !has_name(old(store).instances@, name@)
                &&& !has_id(old(store).instances@, id@)
                &&& final (store).instances@ == old(store).instances@
                &&& final (store).ports@ == old(store).ports@
            },
            _ => false,
        },
{
    if store.instance_exists(name.as_str()) || store.instance_id_exists(id.as_str()) {
        return Err(HypervisorError::InstanceAlreadyExists(name));
    }

    let port: u16 = match requested_port {
        Some(p) => {
            if !allocator.is_port_available(store, p) {
                return Err(HypervisorError::PortUnavailable(p));
            }
            p
        },
        None => {
            match allocator.allocate_port(store, base_port) {
                Ok(p) => p,
                Err(_) => {
                    return Err(HypervisorError::NoPortsAvailable);
                },
            }
        },
    };

    let mut config = config;
    config.rpc_port = port;
    let mut state = InstanceState::new(id, name, config);
    state.qmp_socket = Some(qmp_socket);
    state.serial_log = Some(serial_log);
    let result = state.clone();

    match store.create_instance(state) {
        Ok(()) => Ok(result),
        Err(e) => Err(e),
    }
}

/// Commits a successful start: the instance becomes Running with the PID
/// read back from the hypervisor; identity, configuration and runtime paths
/// are kept.
pub fn complete_start(store: &mut StateStore, name: &str, pid: i32) -> (r: Result<
    (),
    HypervisorError,
>)
    requires
        old(store).wf(),
    ensures
        final (store).wf(),
        old(store).covered() ==> final (store).covered(),
        match r {
            Ok(()) => exists|i: int|
                {
                    &&& 0 <= i < old(store).instances@.len()
                    &&& #[trigger] old(store).instances@[i].name@ == name@
                    &&& final (store).instances@[i].status is Running
                    &&& final (store).instances@[i].vm_pid == Some(pid)
                    &&& final (store).instances@[i].id == old(store).instances@[i].id
                    &&& final (store).instances@[i].config == old(store).instances@[i].config
                    &&& (forall|j: int|
                        0 <= j < old(store).instances@.len() && j != i
                            ==> final (store).instances@[j] == #[trigger] old(
                            store,
                        ).instances@[j])
                },
            Err(HypervisorError::InstanceNotFound(n)) => !has_name(old(store).instances@, name@)
                && n@ == name@,
            _ => false,
        },
{
    set_status_keeping_paths(store, name, InstanceStatus::Running, Some(pid))
}

/// Commits a failed start (or an observed unexpected exit): the instance
/// becomes Failed with the given error and loses its PID; the serial log
/// path is preserved.
pub fn mark_failed(store: &mut StateStore, name: &str, error: String) -> (r: Result<
    (),
    HypervisorError,
>)
    requires
        old(store).wf(),
    ensures
        final (store).wf(),
        old(store).covered() ==> final (store).covered(),
        match r {
            Ok(()) => exists|i: int|
                {
                    &&& 0 <= i < old(store).instances@.len()
                    &&& #[trigger] old(store).instances@[i].name@ == name@
                    &&& (final (store).instances@[i].status matches InstanceStatus::Failed {
                        error: e,
                    } && e@ == error@)
                    &&& final (store).instances@[i].vm_pid is None
                    &&& final (store).instances@[i].id == old(store).instances@[i].id
                    &&& final (store).instances@[i].config == old(store).instances@[i].config
                    &&& (forall|j: int|
                        0 <= j < old(store).instances@.len() && j != i
                            ==> final (store).instances@[j] == #[trigger] old(
                            store,
                        ).instances@[j])
                },
            Err(HypervisorError::InstanceNotFound(n)) => !has_name(old(store).instances@, name@)
                && n@ == name@,
            _ => false,
        },
{
    set_status_keeping_paths(store, name, InstanceStatus::Failed { error }, None)
}

/// Commits the beginning of a stop: the instance becomes Stopping, keeping
/// its PID until the process is confirmed dead.
pub fn begin_stop(store: &mut StateStore, name: &str, pid: i32) -> (r: Result<
    (),
    HypervisorError,
>)
    requires
        old(store).wf(),
    ensures
        final (store).wf(),
        old(store).covered() ==> final (store).covered(),
        match r {
            Ok(()) => exists|i: int|
                {
                    &&& 0 <= i < old(store).instances@.len()
                    &&& #[trigger] old(store).instances@[i].name@ == name@
                    &&& final (store).instances@[i].status is Stopping
                    &&& final (store).instances@[i].vm_pid == Some(pid)
                    &&& (forall|j: int|
                        0 <= j < old(store).instances@.len() && j != i
                            ==> final (store).instances@[j] == #[trigger] old(
                            store,
                        ).instances@[j])
                },
            Err(HypervisorError::InstanceNotFound(n)) => !has_name(old(store).instances@, name@)
                && n@ == name@,
            _ => false,
        },
{
    set_status_keeping_paths(store, name, InstanceStatus::Stopping, Some(pid))
}

/// Commits a confirmed stop: the instance becomes Stopped and its PID is
/// cleared.
pub fn complete_stop(store: &mut StateStore, name: &str) -> (r: Result<(), HypervisorError>)
    requires
        old(store).wf(),
    ensures
        final (store).wf(),
        old(store).covered() ==> final (store).covered(),
        match r {
            Ok(()) => exists|i: int|
                {
                    &&& 0 <= i < old(store).instances@.len()
                    &&& #[trigger] old(store).instances@[i].name@ == name@
                    &&& final (store).instances@[i].status is Stopped
                    &&& final (store).instances@[i].vm_pid is None
                    &&& (forall|j: int|
                        0 <= j < old(store).instances@.len() && j != i
                            ==> final (store).instances@[j] == #[trigger] old(
                            store,
                        ).instances@[j])
                },
            Err(HypervisorError::InstanceNotFound(n)) => !has_name(old(store).instances@, name@)
                && n@ == name@,
            _ => false,
        },
{
    set_status_keeping_paths(store, name, InstanceStatus::Stopped, None)
}

/// Reconciliation after a daemon restart: a persisted Running instance whose
/// process is gone flips to Failed; a live one keeps Running.
pub fn reconcile_running(store: &mut StateStore, name: &str, alive: bool) -> (r: Result<
    (),
    HypervisorError,
>)
    requires
        old(store).wf(),
    ensures
        final (store).wf(),
        old(store).covered() ==> final (store).covered(),
        match r {
            Ok(()) => exists|i: int|
                {
                    &&& 0 <= i < old(store).instances@.len()
                    &&& #[trigger] old(store).instances@[i].name@ == name@
                    &&& (if old(store).instances@[i].status is Running && !alive {
                        final (store).instances@[i].status matches InstanceStatus::Failed { .. }
                            && final (store).instances@[i].vm_pid is None
                    } else {
                        final (store).instances@ == old(store).instances@
                    })
                },
            Err(HypervisorError::InstanceNotFound(n)) => !has_name(old(store).instances@, name@)
                && n@ == name@,
            _ => false,
        },
{
    let state = match store.get_instance(name) {
        Ok(st) => st,
        Err(e) => {
            return Err(e);
        },
    };
    proof {
        let i = choose|i: int|
            0 <= i < store.instances@.len() && #[trigger] store.instances@[i].name@ == name@
                && crate::instance::state_eq(state, store.instances@[i]);
        assert(store.instances@[i].name@ == name@);
    }
    match &state.status {
        InstanceStatus::Running => {
            if !alive {
                mark_failed(store, name, "process lost".to_owned())
            } else {
                proof {
                    let i = choose|i: int|
                        0 <= i < store.instances@.len() && #[trigger] store.instances@[i].name@
                            == name@ && crate::instance::state_eq(state, store.instances@[i]);
                    assert(store.instances@[i].name@ == name@);
                }
                Ok(())
            }
        },
        _ => {
            Ok(())
        },
    }
}

/// Shared transition body: looks the row up, keeps its runtime paths, and
/// overwrites status and PID.
fn set_status_keeping_paths(
    store: &mut StateStore,
    name: &str,
    status: InstanceStatus,
    vm_pid: Option<i32>,
) -> (r: Result<(), HypervisorError>)
    requires
        old(store).wf(),
        vm_pid is Some <==> spec_is_active(status),
    ensures
        final (store).wf(),
        old(store).covered() ==> final (store).covered(),
        match r {
            Ok(()) => exists|i: int|
                {
                    &&& 0 <= i < old(store).instances@.len()
                    &&& #[trigger] old(store).instances@[i].name@ == name@
                    &&& crate::instance::status_eq(final (store).instances@[i].status, status)
                    &&& final (store).instances@[i].status == status
                    &&& final (store).instances@[i].vm_pid == vm_pid
                    &&& final (store).instances@[i].id == old(store).instances@[i].id
                    &&& final (store).instances@[i].name == old(store).instances@[i].name
                    &&& final (store).instances@[i].config == old(store).instances@[i].config
                    &&& final (store).instances@[i].created_at == old(
                        store,
                    ).instances@[i].created_at
                    &&& (forall|j: int|
                        0 <= j < old(store).instances@.len() && j != i
                            ==> final (store).instances@[j] == #[trigger] old(
                            store,
                        ).instances@[j])
                },
            Err(HypervisorError::InstanceNotFound(n)) => !has_name(old(store).instances@, name@)
                && n@ == name@,
            _ => false,
        },
{
    let state = match store.get_instance(name) {
        Ok(st) => st,
        Err(e) => {
            return Err(e);
        },
    };
    let now = now_epoch_seconds();
    match store.set_runtime(name, status, vm_pid, state.qmp_socket, state.serial_log, now) {
        Ok(()) => Ok(()),
        Err(e) => Err(e),
    }
}

} // verus!
