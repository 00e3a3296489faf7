//! The boot-component pipeline: locating the kernel, initial ramdisk and
//! firmware that the katana repository's image build produces. Running the
//! build itself is the embedding application's.

use vstd::prelude::*;

use crate::errors::HypervisorError;
use crate::host::path_exists;

verus! {

/// Locator for the boot components under a katana repository checkout.
pub struct BuildPipeline {
    pub katana_repo_path: String,
}

/// The three boot artifacts of a built guest image.
pub struct BootComponents {
    pub kernel_path: String,
    pub initrd_path: String,
    pub ovmf_path: String,
}

impl BuildPipeline {
    pub fn new(katana_repo_path: String) -> (r: Self)
        ensures
            r.katana_repo_path == katana_repo_path,
    {
        BuildPipeline { katana_repo_path }
    }

    /// Whether all three boot components are present on disk (a host probe;
    /// nothing is assumed of the outcome).
    pub fn boot_components_exist(&self) -> bool {
        let kernel = self.katana_repo_path.clone().concat("/tee/build/vmlinuz");
        let initrd = self.katana_repo_path.clone().concat("/tee/build/initrd.img");
        let ovmf = self.katana_repo_path.clone().concat("/tee/build/ovmf.fd");
        path_exists(kernel.as_str()) && path_exists(initrd.as_str()) && path_exists(ovmf.as_str())
    }

    /// The boot-component paths, provided all three are present on disk.
    pub fn get_boot_components(&self) -> (r: Result<BootComponents, HypervisorError>)
        ensures
            match r {
                Ok(bc) => {
                    &&& bc.kernel_path@ == self.katana_repo_path@ + "/tee/build/vmlinuz"@
                    &&& bc.initrd_path@ == self.katana_repo_path@ + "/tee/build/initrd.img"@
                    &&& bc.ovmf_path@ == self.katana_repo_path@ + "/tee/build/ovmf.fd"@
                },
                Err(HypervisorError::Io(_)) => true,
                Err(_) => false,
            },
    {
        let kernel_path = self.katana_repo_path.clone().concat("/tee/build/vmlinuz");
        let initrd_path = self.katana_repo_path.clone().concat("/tee/build/initrd.img");
        let ovmf_path = self.katana_repo_path.clone().concat("/tee/build/ovmf.fd");
        if !path_exists(kernel_path.as_str()) || !path_exists(initrd_path.as_str())
            || !path_exists(ovmf_path.as_str()) {
            return Err(
                HypervisorError::Io(
                    "boot components not found; build the guest image first".to_owned(),
                ),
            );
        }
        Ok(BootComponents { kernel_path, initrd_path, ovmf_path })
    }
}

} // verus!
