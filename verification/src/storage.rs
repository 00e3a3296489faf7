//! Per-instance storage layout: every file of an instance lives under one
//! directory named by its id, and the quota rule over measured usage. The
//! directory walks, creation and removal are filesystem work the embedding
//! application performs against the paths fixed here.

use vstd::prelude::*;

use crate::errors::HypervisorError;

verus! {

/// Path layout rooted at the instances directory.
pub struct StorageManager {
    pub base_dir: String,
}

/// The files of one instance, all under its directory.
pub struct InstancePaths {
    pub instance_dir: String,
    pub data_dir: String,
    pub serial_log: String,
    pub qmp_socket: String,
    pub pid_file: String,
}

impl StorageManager {
    pub fn new(base_dir: String) -> (r: Self)
        ensures
            r.base_dir == base_dir,
    {
        StorageManager { base_dir }
    }

    /// The directory of one instance.
    pub fn get_instance_dir(&self, instance_id: &str) -> (r: String)
        ensures
            r@ == self.base_dir@ + "/"@ + instance_id@,
    {
        self.base_dir.clone().concat("/").concat(instance_id)
    }

    /// Whether measured usage exceeds the quota.
    pub fn check_quota(&self, usage: u64, quota_bytes: u64) -> (r: Result<(), HypervisorError>)
        ensures
            (r is Ok) <==> usage <= quota_bytes,
            match r {
                Ok(()) => true,
                Err(HypervisorError::StorageQuotaExceeded { used, limit }) => used == usage
                    && limit == quota_bytes,
                Err(_) => false,
            },
    {
        if usage > quota_bytes {
            return Err(HypervisorError::StorageQuotaExceeded { used: usage, limit: quota_bytes });
        }
        Ok(())
    }

    /// The file paths of one instance: guest data directory, serial log,
    /// monitor socket and PID file, all inside its directory.
    pub fn get_paths(&self, instance_id: &str) -> (r: InstancePaths)
        ensures
            ({
                let dir = self.base_dir@ + "/"@ + instance_id@;
                &&& r.instance_dir@ == dir
                &&& r.data_dir@ == dir + "/data"@
                &&& r.serial_log@ == dir + "/serial.log"@
                &&& r.qmp_socket@ == dir + "/qmp.sock"@
                &&& r.pid_file@ == dir + "/qemu.pid"@
            }),
    {
        let instance_dir = self.get_instance_dir(instance_id);
        InstancePaths {
            data_dir: instance_dir.clone().concat("/data"),
            serial_log: instance_dir.clone().concat("/serial.log"),
            qmp_socket: instance_dir.clone().concat("/qmp.sock"),
            pid_file: instance_dir.clone().concat("/qemu.pid"),
            instance_dir,
        }
    }
}

} // verus!
