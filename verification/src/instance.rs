//! The instance aggregate: status variants, immutable configuration, and the
//! persisted record that the lifecycle coordinator mutates.

use vstd::prelude::*;

use crate::host::now_epoch_seconds;
use crate::strutil::clone_string_vec;

verus! {

/// Lifecycle status of an instance.
pub enum InstanceStatus {
    Created,
    Starting,
    Running,
    Stopping,
    Stopped,
    Failed { error: String },
}

/// Status equality, over the error message's characters for `Failed`.
pub open spec fn status_eq(a: InstanceStatus, b: InstanceStatus) -> bool {
    match (a, b) {
        (InstanceStatus::Created, InstanceStatus::Created) => true,
        (InstanceStatus::Starting, InstanceStatus::Starting) => true,
        (InstanceStatus::Running, InstanceStatus::Running) => true,
        (InstanceStatus::Stopping, InstanceStatus::Stopping) => true,
        (InstanceStatus::Stopped, InstanceStatus::Stopped) => true,
        (InstanceStatus::Failed { error: x }, InstanceStatus::Failed { error: y }) => x@ == y@,
        _ => false,
    }
}

/// Whether a status denotes a live hypervisor process (the statuses under
/// which `vm_pid` must be set).
pub open spec fn spec_is_active(s: InstanceStatus) -> bool {
    s is Running || s is Stopping
}

/// The lowercase label of a status, as shown to API clients.
pub open spec fn spec_status_label(s: InstanceStatus) -> Seq<char> {
    match s {
        InstanceStatus::Created => "created"@,
        InstanceStatus::Starting => "starting"@,
        InstanceStatus::Running => "running"@,
        InstanceStatus::Stopping => "stopping"@,
        InstanceStatus::Stopped => "stopped"@,
        InstanceStatus::Failed { error } => "failed: "@ + error@,
    }
}

impl InstanceStatus {
    /// Whether this status requires a live hypervisor process.
    pub fn is_active(&self) -> (r: bool)
        ensures
            r == spec_is_active(*self),
    {
        match self {
            InstanceStatus::Running => true,
            InstanceStatus::Stopping => true,
            _ => false,
        }
    }

    /// The lowercase label of this status.
    pub fn label(&self) -> (r: String)
        ensures
            r@ == spec_status_label(*self),
    {
        match self {
            InstanceStatus::Created => "created".to_owned(),
            InstanceStatus::Starting => "starting".to_owned(),
            InstanceStatus::Running => "running".to_owned(),
            InstanceStatus::Stopping => "stopping".to_owned(),
            InstanceStatus::Stopped => "stopped".to_owned(),
            InstanceStatus::Failed { error } => "failed: ".to_owned().concat(error.as_str()),
        }
    }
}

impl Clone for InstanceStatus {
    fn clone(&self) -> (r: Self)
        ensures
            status_eq(r, *self),
    {
        match self {
            InstanceStatus::Created => InstanceStatus::Created,
            InstanceStatus::Starting => InstanceStatus::Starting,
            InstanceStatus::Running => InstanceStatus::Running,
            InstanceStatus::Stopping => InstanceStatus::Stopping,
            InstanceStatus::Stopped => InstanceStatus::Stopped,
            InstanceStatus::Failed { error } => InstanceStatus::Failed { error: error.clone() },
        }
    }
}

/// Immutable configuration of an instance, fixed at creation.
pub struct InstanceConfig {
    pub vcpus: u32,
    pub memory_mb: u64,
    pub storage_bytes: u64,
    pub rpc_port: u16,
    pub vcpu_type: String,
    pub tee_mode: bool,
    pub kernel_path: String,
    pub initrd_path: String,
    pub ovmf_path: Option<String>,
    pub expected_measurement: Option<String>,
    pub katana_args: Vec<String>,
}

/// A confidential-mode configuration must carry both the firmware image and
/// the expected launch measurement.
pub open spec fn config_wf(c: InstanceConfig) -> bool {
    c.tee_mode ==> c.expected_measurement is Some && c.ovmf_path is Some
}

/// Field-wise equality of two configurations, over string views.
pub open spec fn config_eq(a: InstanceConfig, b: InstanceConfig) -> bool {
    &&& a.vcpus == b.vcpus
    &&& a.memory_mb == b.memory_mb
    &&& a.storage_bytes == b.storage_bytes
    &&& a.rpc_port == b.rpc_port
    &&& a.vcpu_type@ == b.vcpu_type@
    &&& a.tee_mode == b.tee_mode
    &&& a.kernel_path@ == b.kernel_path@
    &&& a.initrd_path@ == b.initrd_path@
    &&& match (a.ovmf_path, b.ovmf_path) {
        (Some(x), Some(y)) => x@ == y@,
        (None, None) => true,
        _ => false,
    }
    &&& match (a.expected_measurement, b.expected_measurement) {
        (Some(x), Some(y)) => x@ == y@,
        (None, None) => true,
        _ => false,
    }
    &&& a.katana_args.deep_view() == b.katana_args.deep_view()
}

impl InstanceConfig {
    /// The guest-program arguments injected on the kernel command line.
    pub fn build_katana_args(&self) -> (r: Vec<String>)
        ensures
            r.deep_view() == self.katana_args.deep_view(),
    {
        clone_string_vec(&self.katana_args)
    }
}

impl Clone for InstanceConfig {
    fn clone(&self) -> (r: Self)
        ensures
            config_eq(r, *self),
    {
        InstanceConfig {
            vcpus: self.vcpus,
            memory_mb: self.memory_mb,
            storage_bytes: self.storage_bytes,
            rpc_port: self.rpc_port,
            vcpu_type: self.vcpu_type.clone(),
            tee_mode: self.tee_mode,
            kernel_path: self.kernel_path.clone(),
            initrd_path: self.initrd_path.clone(),
            ovmf_path: match &self.ovmf_path {
                Some(p) => Some(p.clone()),
                None => None,
            },
            expected_measurement: match &self.expected_measurement {
                Some(m) => Some(m.clone()),
                None => None,
            },
            katana_args: clone_string_vec(&self.katana_args),
        }
    }
}

/// One persisted instance row.
pub struct InstanceState {
    pub id: String,
    pub name: String,
    pub status: InstanceStatus,
    pub config: InstanceConfig,
    pub vm_pid: Option<i32>,
    pub qmp_socket: Option<String>,
    pub serial_log: Option<String>,
    pub created_at: i64,
    pub updated_at: i64,
}

/// The per-row invariant every persisted instance satisfies: a PID is
/// recorded exactly while the status is Running or Stopping, and a
/// confidential-mode configuration carries its measurement and firmware.
pub open spec fn instance_ok(s: InstanceState) -> bool {
    &&& (s.vm_pid is Some <==> spec_is_active(s.status))
    &&& config_wf(s.config)
}

/// Field-wise equality of two instance records, over string views.
pub open spec fn state_eq(a: InstanceState, b: InstanceState) -> bool {
    &&& a.id@ == b.id@
    &&& a.name@ == b.name@
    &&& status_eq(a.status, b.status)
    &&& config_eq(a.config, b.config)
    &&& a.vm_pid == b.vm_pid
    &&& match (a.qmp_socket, b.qmp_socket) {
        (Some(x), Some(y)) => x@ == y@,
        (None, None) => true,
        _ => false,
    }
    &&& match (a.serial_log, b.serial_log) {
        (Some(x), Some(y)) => x@ == y@,
        (None, None) => true,
        _ => false,
    }
    &&& a.created_at == b.created_at
    &&& a.updated_at == b.updated_at
}

impl InstanceState {
    /// A freshly created record: status Created, no process, no runtime
    /// paths, and creation and update stamps equal.
    pub fn new(id: String, name: String, config: InstanceConfig) -> (r: Self)
        ensures
            r.id == id,
            r.name == name,
            r.status is Created,
            r.config == config,
            r.vm_pid is None,
            r.qmp_socket is None,
            r.serial_log is None,
            r.created_at == r.updated_at,
    {
        let now = now_epoch_seconds();
        InstanceState {
            id,
            name,
            status: InstanceStatus::Created,
            config,
            vm_pid: None,
            qmp_socket: None,
            serial_log: None,
            created_at: now,
            updated_at: now,
        }
    }

    /// Replaces the status and refreshes the update stamp; every other field
    /// is kept.
    pub fn update_status(&mut self, status: InstanceStatus)
        ensures
            final (self).status == status,
            final (self).id == old(self).id,
            final (self).name == old(self).name,
            final (self).config == old(self).config,
            final (self).vm_pid == old(self).vm_pid,
            final (self).qmp_socket == old(self).qmp_socket,
            final (self).serial_log == old(self).serial_log,
            final (self).created_at == old(self).created_at,
    {
        self.status = status;
        self.updated_at = now_epoch_seconds();
    }
}

impl Clone for InstanceState {
    fn clone(&self) -> (r: Self)
        ensures
            state_eq(r, *self),
    {
        InstanceState {
            id: self.id.clone(),
            name: self.name.clone(),
            status: self.status.clone(),
            config: self.config.clone(),
            vm_pid: self.vm_pid,
            qmp_socket: match &self.qmp_socket {
                Some(p) => Some(p.clone()),
                None => None,
            },
            serial_log: match &self.serial_log {
                Some(p) => Some(p.clone()),
                None => None,
            },
            created_at: self.created_at,
            updated_at: self.updated_at,
        }
    }
}

} // verus!
