//! Hypervisor launch configuration and its projection to the exact,
//! ordered argument vector handed to `qemu-system-x86_64`.

use vstd::prelude::*;

use crate::numstr::{spec_join, spec_u64_str, join_strings, u16_to_string, u32_to_string,
    u64_to_string, u8_to_string};

verus! {

/// Launch configuration for one guest.
pub struct QemuConfig {
    pub memory_mb: u64,
    pub vcpus: u32,
    pub cpu_type: String,
    pub kernel_path: String,
    pub initrd_path: String,
    pub bios_path: Option<String>,
    pub kernel_cmdline: String,
    pub rpc_port: u16,
    pub disk_image: Option<String>,
    pub qmp_socket: String,
    pub serial_log: String,
    pub pid_file: String,
    pub sev_snp: Option<SevSnpConfig>,
    pub enable_kvm: bool,
}

/// AMD SEV-SNP guest parameters.
pub struct SevSnpConfig {
    pub cbitpos: u8,
    pub reduced_phys_bits: u8,
    pub vcpu_type: String,
}

/// Field-wise equality of two SEV-SNP configurations, over string views.
pub open spec fn sev_snp_eq(a: SevSnpConfig, b: SevSnpConfig) -> bool {
    &&& a.cbitpos == b.cbitpos
    &&& a.reduced_phys_bits == b.reduced_phys_bits
    &&& a.vcpu_type@ == b.vcpu_type@
}

/// Field-wise equality of two launch configurations, over string views.
pub open spec fn qemu_config_eq(a: QemuConfig, b: QemuConfig) -> bool {
    &&& a.memory_mb == b.memory_mb
    &&& a.vcpus == b.vcpus
    &&& a.cpu_type@ == b.cpu_type@
    &&& a.kernel_path@ == b.kernel_path@
    &&& a.initrd_path@ == b.initrd_path@
    &&& match (a.bios_path, b.bios_path) {
        (Some(x), Some(y)) => x@ == y@,
        (None, None) => true,
        _ => false,
    }
    &&& a.kernel_cmdline@ == b.kernel_cmdline@
    &&& a.rpc_port == b.rpc_port
    &&& match (a.disk_image, b.disk_image) {
        (Some(x), Some(y)) => x@ == y@,
        (None, None) => true,
        _ => false,
    }
    &&& a.qmp_socket@ == b.qmp_socket@
    &&& a.serial_log@ == b.serial_log@
    &&& a.pid_file@ == b.pid_file@
    &&& match (a.sev_snp, b.sev_snp) {
        (Some(x), Some(y)) => sev_snp_eq(x, y),
        (None, None) => true,
        _ => false,
    }
    &&& a.enable_kvm == b.enable_kvm
}

impl Clone for SevSnpConfig {
    fn clone(&self) -> (r: Self)
        ensures
            sev_snp_eq(r, *self),
    {
        SevSnpConfig {
            cbitpos: self.cbitpos,
            reduced_phys_bits: self.reduced_phys_bits,
            vcpu_type: self.vcpu_type.clone(),
        }
    }
}

impl Clone for QemuConfig {
    fn clone(&self) -> (r: Self)
        ensures
            qemu_config_eq(r, *self),
    {
        QemuConfig {
            memory_mb: self.memory_mb,
            vcpus: self.vcpus,
            cpu_type: self.cpu_type.clone(),
            kernel_path: self.kernel_path.clone(),
            initrd_path: self.initrd_path.clone(),
            bios_path: match &self.bios_path {
                Some(p) => Some(p.clone()),
                None => None,
            },
            kernel_cmdline: self.kernel_cmdline.clone(),
            rpc_port: self.rpc_port,
            disk_image: match &self.disk_image {
                Some(p) => Some(p.clone()),
                None => None,
            },
            qmp_socket: self.qmp_socket.clone(),
            serial_log: self.serial_log.clone(),
            pid_file: self.pid_file.clone(),
            sev_snp: match &self.sev_snp {
                Some(s) => Some(s.clone()),
                None => None,
            },
            enable_kvm: self.enable_kvm,
        }
    }
}

/// The `-object` argument describing the SEV-SNP guest.
pub open spec fn spec_sev_object_arg(s: SevSnpConfig) -> Seq<char> {
    "sev-snp-guest,id=sev0,cbitpos="@ + spec_u64_str(s.cbitpos as nat)
        + ",reduced-phys-bits="@ + spec_u64_str(s.reduced_phys_bits as nat)
}

/// CPU and machine arguments: SEV-SNP guests get the confidential machine
/// type, the guest object and (when configured) the firmware image; plain
/// guests get the configured CPU model and a bare `q35` machine.
pub open spec fn spec_cpu_machine_args(c: QemuConfig) -> Seq<Seq<char>> {
    match c.sev_snp {
        Some(sev) => seq![
            "-cpu"@,
            sev.vcpu_type@,
            "-machine"@,
            "q35,confidential-guest-support=sev0"@,
            "-object"@,
            spec_sev_object_arg(sev),
        ] + match c.bios_path {
            Some(b) => seq!["-bios"@, b@],
            None => Seq::<Seq<char>>::empty(),
        },
        None => seq!["-cpu"@, c.cpu_type@, "-machine"@, "q35"@],
    }
}

/// The full argument vector, in the exact order handed to the hypervisor.
pub open spec fn spec_qemu_args(c: QemuConfig) -> Seq<Seq<char>> {
    seq!["qemu-system-x86_64"@] + (if c.enable_kvm {
        seq!["-enable-kvm"@]
    } else {
        Seq::<Seq<char>>::empty()
    }) + spec_cpu_machine_args(c) + seq![
        "-smp"@,
        spec_u64_str(c.vcpus as nat),
        "-m"@,
        spec_u64_str(c.memory_mb as nat) + "M"@,
        "-kernel"@,
        c.kernel_path@,
        "-initrd"@,
        c.initrd_path@,
        "-append"@,
        c.kernel_cmdline@,
        "-netdev"@,
        "user,id=net0,hostfwd=tcp::"@ + spec_u64_str(c.rpc_port as nat) + "-:5050"@,
        "-device"@,
        "virtio-net-pci,netdev=net0"@,
    ] + (match c.disk_image {
        Some(d) => seq!["-drive"@, "file="@ + d@ + ",if=virtio,format=qcow2"@],
        None => Seq::<Seq<char>>::empty(),
    }) + seq![
        "-display"@,
        "none"@,
        "-serial"@,
        "file:"@ + c.serial_log@,
        "-qmp"@,
        "unix:"@ + c.qmp_socket@ + ",server,nowait"@,
        "-daemonize"@,
        "-pidfile"@,
        c.pid_file@,
    ]
}

/// The kernel command line carrying the guest program's arguments.
pub open spec fn spec_kernel_cmdline(katana_args: Seq<Seq<char>>) -> Seq<char> {
    "console=ttyS0 loglevel=4 katana.args="@ + spec_join(katana_args, " "@)
}

/// The argument vector is a pure projection of the configuration: equal
/// configurations (up to string contents) yield the identical vector.
pub proof fn lemma_qemu_args_deterministic(a: QemuConfig, b: QemuConfig)
    requires
        qemu_config_eq(a, b),
    ensures
        spec_qemu_args(a) == spec_qemu_args(b),
{
    match (a.sev_snp, b.sev_snp) {
        (Some(x), Some(y)) => {
            assert(spec_sev_object_arg(x) == spec_sev_object_arg(y));
            assert(spec_cpu_machine_args(a) =~~= spec_cpu_machine_args(b));
        }
        (None, None) => {
            assert(spec_cpu_machine_args(a) =~~= spec_cpu_machine_args(b));
        }
        _ => {}
    }
    assert(spec_qemu_args(a) =~~= spec_qemu_args(b));
}

impl QemuConfig {
    /// Build the hypervisor command line.
    pub fn to_qemu_args(&self) -> (args: Vec<String>)
        ensures
            args.deep_view() == spec_qemu_args(*self),
    {
        let mut args: Vec<String> = Vec::new();
        args.push("qemu-system-x86_64".to_owned());

        if self.enable_kvm {
            args.push("-enable-kvm".to_owned());
        }

        if let Some(sev_snp) = &self.sev_snp {
            args.push("-cpu".to_owned());
            args.push(sev_snp.vcpu_type.clone());

            args.push("-machine".to_owned());
            args.push("q35,confidential-guest-support=sev0".to_owned());

            args.push("-object".to_owned());
            args.push(
                "sev-snp-guest,id=sev0,cbitpos=".to_owned()
                    .concat(u8_to_string(sev_snp.cbitpos).as_str())
                    .concat(",reduced-phys-bits=")
                    .concat(u8_to_string(sev_snp.reduced_phys_bits).as_str()),
            );

            if let Some(bios_path) = &self.bios_path {
                args.push("-bios".to_owned());
                args.push(bios_path.clone());
            }
        } else {
            args.push("-cpu".to_owned());
            args.push(self.cpu_type.clone());

            args.push("-machine".to_owned());
            args.push("q35".to_owned());
        }

        args.push("-smp".to_owned());
        args.push(u32_to_string(self.vcpus));

        args.push("-m".to_owned());
        args.push(u64_to_string(self.memory_mb).concat("M"));

        args.push("-kernel".to_owned());
        args.push(self.kernel_path.clone());

        args.push("-initrd".to_owned());
        args.push(self.initrd_path.clone());

        args.push("-append".to_owned());
        args.push(self.kernel_cmdline.clone());

        args.push("-netdev".to_owned());
        args.push(
            "user,id=net0,hostfwd=tcp::".to_owned()
                .concat(u16_to_string(self.rpc_port).as_str())
                .concat("-:5050"),
        );

        args.push("-device".to_owned());
        args.push("virtio-net-pci,netdev=net0".to_owned());

        if let Some(disk_path) = &self.disk_image {
            args.push("-drive".to_owned());
            args.push(
                "file=".to_owned().concat(disk_path.as_str()).concat(",if=virtio,format=qcow2"),
            );
        }

        args.push("-display".to_owned());
        args.push("none".to_owned());

        args.push("-serial".to_owned());
        args.push("file:".to_owned().concat(self.serial_log.as_str()));

        args.push("-qmp".to_owned());
        args.push("unix:".to_owned().concat(self.qmp_socket.as_str()).concat(",server,nowait"));

        args.push("-daemonize".to_owned());

        args.push("-pidfile".to_owned());
        args.push(self.pid_file.clone());

        proof {
            assert(args.deep_view() =~~= spec_qemu_args(*self));
        }
        args
    }

    /// Build the kernel command line carrying the guest program's arguments.
    pub fn build_kernel_cmdline(katana_args: &Vec<String>) -> (r: String)
        ensures
            r@ == spec_kernel_cmdline(katana_args.deep_view()),
    {
        "console=ttyS0 loglevel=4 katana.args=".to_owned()
            .concat(join_strings(katana_args, " ").as_str())
    }
}

} // verus!
