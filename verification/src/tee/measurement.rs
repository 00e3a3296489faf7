//! Pre-launch measurement derivation: the expected SEV-SNP launch digest is
//! computed by the reference calculator script from the firmware, kernel,
//! initial ramdisk, command line and vCPU topology. The command line handed
//! to that script is a pure function of those inputs, assembled and
//! specified here; the embedding application runs the script and reads its
//! output files.

use vstd::prelude::*;

use crate::errors::HypervisorError;
use crate::numstr::{spec_u64_str, u32_to_string};

verus! {

/// Derives expected launch measurements through the reference calculator
/// script of the katana repository.
pub struct MeasurementCalculator {
    pub script_path: String,
}

/// A derived measurement together with its JSON input description.
pub struct MeasurementOutput {
    pub measurement: String,
    pub json_metadata: String,
}

/// The script's argument vector: firmware, then kernel, initial ramdisk and
/// command line (empty strings where absent — a kernel-less derivation
/// blanks all three), then the vCPU count and model, then the output
/// directory.
pub open spec fn spec_measurement_args(
    script: Seq<char>,
    ovmf: Seq<char>,
    kernel: Option<&str>,
    initrd: Option<&str>,
    cmdline: Option<&str>,
    vcpus: u32,
    vcpu_type: Seq<char>,
    output_dir: Seq<char>,
) -> Seq<Seq<char>> {
    seq![script, ovmf] + (match kernel {
        Some(k) => seq![
            k@,
            (match initrd {
                Some(i) => i@,
                None => ""@,
            }),
            (match cmdline {
                Some(c) => c@,
                None => ""@,
            }),
        ],
        None => seq![""@, ""@, ""@],
    }) + seq![spec_u64_str(vcpus as nat), vcpu_type, output_dir]
}

/// The derivation is a pure function of its inputs: equal inputs give the
/// identical script invocation, so equal input bytes give equal digests as
/// far as this control plane decides anything.
pub proof fn lemma_measurement_args_deterministic(
    script: Seq<char>,
    ovmf: Seq<char>,
    kernel1: Option<&str>,
    kernel2: Option<&str>,
    initrd1: Option<&str>,
    initrd2: Option<&str>,
    cmdline1: Option<&str>,
    cmdline2: Option<&str>,
    vcpus: u32,
    vcpu_type: Seq<char>,
    output_dir: Seq<char>,
)
    requires
        match (kernel1, kernel2) {
            (Some(a), Some(b)) => a@ == b@,
            (None, None) => true,
            _ => false,
        },
        match (initrd1, initrd2) {
            (Some(a), Some(b)) => a@ == b@,
            (None, None) => true,
            _ => false,
        },
        match (cmdline1, cmdline2) {
            (Some(a), Some(b)) => a@ == b@,
            (None, None) => true,
            _ => false,
        },
    ensures
        spec_measurement_args(script, ovmf, kernel1, initrd1, cmdline1, vcpus, vcpu_type,
        output_dir) == spec_measurement_args(
            script,
            ovmf,
            kernel2,
            initrd2,
            cmdline2,
            vcpus,
            vcpu_type,
            output_dir,
        ),
{
    assert(spec_measurement_args(script, ovmf, kernel1, initrd1, cmdline1, vcpus, vcpu_type,
    output_dir) =~~= spec_measurement_args(
        script,
        ovmf,
        kernel2,
        initrd2,
        cmdline2,
        vcpus,
        vcpu_type,
        output_dir,
    ));
}

impl MeasurementCalculator {
    /// A calculator bound to the reference script inside the katana
    /// repository checkout.
    pub fn new(katana_repo_path: &str) -> (r: Self)
        ensures
            r.script_path@ == katana_repo_path@ + "/tee/scripts/calculate-measurement.sh"@,
    {
        MeasurementCalculator {
            script_path: katana_repo_path.to_owned().concat(
                "/tee/scripts/calculate-measurement.sh",
            ),
        }
    }

    /// The exact argument vector for one derivation.
    pub fn command_args(
        &self,
        ovmf_path: &str,
        kernel_path: Option<&str>,
        initrd_path: Option<&str>,
        kernel_cmdline: Option<&str>,
        vcpus: u32,
        vcpu_type: &str,
        output_dir: &str,
    ) -> (r: Vec<String>)
        ensures
            r.deep_view() == spec_measurement_args(
                self.script_path@,
                ovmf_path@,
                kernel_path,
                initrd_path,
                kernel_cmdline,
                vcpus,
                vcpu_type@,
                output_dir@,
            ),
    {
        proof {
            reveal_strlit("");
        }
        let mut args: Vec<String> = Vec::new();
        args.push(self.script_path.clone());
        args.push(ovmf_path.to_owned());
        match kernel_path {
            Some(kernel) => {
                args.push(kernel.to_owned());
                match initrd_path {
                    Some(initrd) => args.push(initrd.to_owned()),
                    None => args.push(String::new()),
                }
                match kernel_cmdline {
                    Some(cmdline) => args.push(cmdline.to_owned()),
                    None => args.push(String::new()),
                }
            },
            None => {
                args.push(String::new());
                args.push(String::new());
                args.push(String::new());
            },
        }
        args.push(u32_to_string(vcpus));
        args.push(vcpu_type.to_owned());
        args.push(output_dir.to_owned());
        proof {
            assert(args.deep_view() =~~= spec_measurement_args(
                self.script_path@,
                ovmf_path@,
                kernel_path,
                initrd_path,
                kernel_cmdline,
                vcpus,
                vcpu_type@,
                output_dir@,
            ));
        }
        args
    }

    /// Validation the derivation performs before running anything, from the
    /// probed presence of each input file: the script and firmware must
    /// exist, and a given kernel or initial ramdisk must exist too.
    pub fn check_inputs(
        script_exists: bool,
        ovmf_exists: bool,
        kernel_path: Option<&str>,
        kernel_exists: bool,
        initrd_path: Option<&str>,
        initrd_exists: bool,
    ) -> (r: Result<(), HypervisorError>)
        ensures
            (r is Ok) <==> (script_exists && ovmf_exists && (kernel_path is Some ==> kernel_exists)
                && (initrd_path is Some ==> initrd_exists)),
            r is Err ==> r matches Err(HypervisorError::Io(_)),
    {
        if !script_exists {
            return Err(HypervisorError::Io("measurement script not found".to_owned()));
        }
        if !ovmf_exists {
            return Err(HypervisorError::Io("OVMF file not found".to_owned()));
        }
        if kernel_path.is_some() && !kernel_exists {
            return Err(HypervisorError::Io("kernel file not found".to_owned()));
        }
        if initrd_path.is_some() && !initrd_exists {
            return Err(HypervisorError::Io("initrd file not found".to_owned()));
        }
        Ok(())
    }
}

} // verus!
