use katana_hypervisor::qemu::{QemuConfig, Vm};

fn create_test_config() -> QemuConfig {
    QemuConfig {
        memory_mb: 2048,
        vcpus: 2,
        cpu_type: "host".to_string(),
        kernel_path: "/test/vmlinuz".to_string(),
        initrd_path: "/test/initrd.img".to_string(),
        bios_path: None,
        kernel_cmdline: "console=ttyS0".to_string(),
        rpc_port: 5050,
        disk_image: None,
        qmp_socket: "/tmp/qmp.sock".to_string(),
        serial_log: "/tmp/serial.log".to_string(),
        pid_file: "/tmp/qemu.pid".to_string(),
        sev_snp: None,
        enable_kvm: true,
    }
}

#[test]
fn test_new_vm() {
    let config = create_test_config();
    let vm = Vm::new(config);

    assert!(vm.pid().is_none());
    assert!(!vm.is_running());
}

#[test]
fn test_from_running() {
    let config = create_test_config();
    let vm = Vm::from_running(config, 12345);

    assert_eq!(vm.pid(), Some(12345));
}

#[test]
fn test_accessors() {
    let config = create_test_config();
    let vm = Vm::new(config);

    assert_eq!(vm.config().memory_mb, 2048);
    assert_eq!(vm.config().vcpus, 2);
    assert_eq!(vm.qmp_socket(), "/tmp/qmp.sock");
    assert_eq!(vm.pid_file(), "/tmp/qemu.pid");
    assert_eq!(vm.serial_log(), "/tmp/serial.log");
}

#[test]
fn test_require_pid_fails_when_not_running() {
    let config = create_test_config();
    let vm = Vm::new(config);

    let result = vm.require_pid();
    assert!(result.is_err());
}

#[test]
fn monitor_operations_refused_before_launch() {
    let vm = Vm::new(create_test_config());
    assert!(vm.pause().is_err());
    assert!(vm.resume().is_err());
    assert!(vm.suspend().is_err());
    assert!(vm.wake().is_err());
    assert!(vm.reset().is_err());
}

#[test]
fn monitor_operations_carry_exact_payloads() {
    let vm = Vm::from_running(create_test_config(), 4242);

    let pause = vm.pause().unwrap();
    assert_eq!(pause.socket_path, "/tmp/qmp.sock");
    assert_eq!(pause.handshake, "{\"execute\":\"qmp_capabilities\"}");
    assert_eq!(pause.command, "{\"execute\":\"stop\"}");

    assert_eq!(vm.resume().unwrap().command, "{\"execute\":\"cont\"}");
    assert_eq!(vm.suspend().unwrap().command, "{\"execute\":\"system_suspend\"}");
    assert_eq!(vm.wake().unwrap().command, "{\"execute\":\"system_wakeup\"}");
    assert_eq!(vm.reset().unwrap().command, "{\"execute\":\"system_reset\"}");
}
