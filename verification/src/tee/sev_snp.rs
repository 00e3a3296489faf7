//! SEV-SNP parameter helpers: the default EPYC configuration, host support
//! detection, and parameter validation.

use vstd::prelude::*;

use crate::host::path_exists;
use crate::numstr::{spec_u64_str, u8_to_string};
use crate::qemu::config::SevSnpConfig;

verus! {

impl SevSnpConfig {
    /// The default configuration for AMD EPYC hosts: C-bit position 51, one
    /// reduced physical address bit, the EPYC-v4 vCPU model.
    pub fn default_epyc() -> (r: Self)
        ensures
            r.cbitpos == 51,
            r.reduced_phys_bits == 1,
            r.vcpu_type@ == "EPYC-v4"@,
    {
        SevSnpConfig { cbitpos: 51, reduced_phys_bits: 1, vcpu_type: "EPYC-v4".to_owned() }
    }

    /// Whether the host exposes the SEV guest device (a probe of
    /// `/dev/sev-guest`; nothing is assumed of the outcome).
    pub fn is_available() -> bool {
        path_exists("/dev/sev-guest")
    }

    /// Validates the parameters: the C-bit position must fit in six bits,
    /// at most ten physical address bits may be reduced, and the vCPU model
    /// must be named.
    pub fn validate(&self) -> (r: Result<(), String>)
        ensures
            (r is Ok) <==> (self.cbitpos <= 63 && self.reduced_phys_bits <= 10
                && self.vcpu_type@.len() > 0),
            (match r {
                Ok(()) => true,
                Err(m) => {
                    ||| (self.cbitpos > 63 && m@ == "Invalid cbitpos: "@ + spec_u64_str(
                        self.cbitpos as nat,
                    ) + " (must be <= 63)"@)
                    ||| (self.cbitpos <= 63 && self.reduced_phys_bits > 10 && m@
                        == "Invalid reduced_phys_bits: "@ + spec_u64_str(
                        self.reduced_phys_bits as nat,
                    ) + " (must be <= 10)"@)
                    ||| (self.cbitpos <= 63 && self.reduced_phys_bits <= 10
                        && self.vcpu_type@.len() == 0 && m@ == "vcpu_type cannot be empty"@)
                },
            }),
    {
        if self.cbitpos > 63 {
            return Err(
                "Invalid cbitpos: ".to_owned().concat(u8_to_string(self.cbitpos).as_str()).concat(
                    " (must be <= 63)",
                ),
            );
        }
        if self.reduced_phys_bits > 10 {
            return Err(
                "Invalid reduced_phys_bits: ".to_owned().concat(
                    u8_to_string(self.reduced_phys_bits).as_str(),
                ).concat(" (must be <= 10)"),
            );
        }
        if self.vcpu_type.as_str().is_empty() {
            return Err("vcpu_type cannot be empty".to_owned());
        }
        Ok(())
    }
}

} // verus!
