use katana_hypervisor::qemu::SevSnpConfig;
use katana_hypervisor::tee::{BuildPipeline, MeasurementCalculator};

#[test]
fn test_build_pipeline_creation() {
    let pipeline = BuildPipeline::new("/home/ubuntu/katana".to_string());
    assert_eq!(pipeline.katana_repo_path, "/home/ubuntu/katana");
}

#[test]
fn test_boot_components_paths() {
    let pipeline = BuildPipeline::new("/home/ubuntu/katana".to_string());

    // This will likely return false unless the components were actually built
    let _exists = pipeline.boot_components_exist();

    // No assertion - just verify it doesn't panic
}

#[test]
fn test_measurement_calculator_creation() {
    let calculator = MeasurementCalculator::new("/home/ubuntu/katana");
    assert!(calculator.script_path.ends_with("calculate-measurement.sh"));
}

#[test]
fn test_default_epyc_config() {
    let config = SevSnpConfig::default_epyc();
    assert_eq!(config.cbitpos, 51);
    assert_eq!(config.reduced_phys_bits, 1);
    assert_eq!(config.vcpu_type, "EPYC-v4");
}

#[test]
fn test_validate_config() {
    let mut config = SevSnpConfig::default_epyc();
    assert!(config.validate().is_ok());

    // Test invalid cbitpos
    config.cbitpos = 100;
    assert!(config.validate().is_err());

    // Test invalid reduced_phys_bits
    config.cbitpos = 51;
    config.reduced_phys_bits = 20;
    assert!(config.validate().is_err());

    // Test empty vcpu_type
    config.reduced_phys_bits = 1;
    config.vcpu_type = String::new();
    assert!(config.validate().is_err());
}

#[test]
fn test_is_available() {
    // This test will pass or fail depending on hardware
    // On non-SEV hardware, should return false
    let _available = SevSnpConfig::is_available();
    // No assertion - just verify it doesn't panic
}

#[test]
fn measurement_command_args_order() {
    let calculator = MeasurementCalculator::new("/repo");
    let args = calculator.command_args(
        "/o/ovmf.fd",
        Some("/b/vmlinuz"),
        Some("/b/initrd.img"),
        Some("console=ttyS0"),
        4,
        "EPYC-v4",
        "/tmp/out",
    );
    assert_eq!(
        args,
        vec![
            "/repo/tee/scripts/calculate-measurement.sh".to_string(),
            "/o/ovmf.fd".to_string(),
            "/b/vmlinuz".to_string(),
            "/b/initrd.img".to_string(),
            "console=ttyS0".to_string(),
            "4".to_string(),
            "EPYC-v4".to_string(),
            "/tmp/out".to_string(),
        ]
    );
}

#[test]
fn measurement_command_args_uefi_mode_blanks_kernel_fields() {
    let calculator = MeasurementCalculator::new("/repo");
    let args = calculator.command_args("/o/ovmf.fd", None, None, None, 2, "EPYC-v4", "/tmp/out");
    assert_eq!(
        args,
        vec![
            "/repo/tee/scripts/calculate-measurement.sh".to_string(),
            "/o/ovmf.fd".to_string(),
            "".to_string(),
            "".to_string(),
            "".to_string(),
            "2".to_string(),
            "EPYC-v4".to_string(),
            "/tmp/out".to_string(),
        ]
    );
}

#[test]
fn measurement_determinism_and_sensitivity() {
    // Identical inputs twice: byte-equal command vectors.
    let calculator = MeasurementCalculator::new("/repo");
    let a = calculator.command_args(
        "/o/ovmf.fd",
        Some("/b/vmlinuz"),
        Some("/b/initrd.img"),
        Some("console=ttyS0 loglevel=4"),
        4,
        "EPYC-v4",
        "/tmp/out",
    );
    let b = calculator.command_args(
        "/o/ovmf.fd",
        Some("/b/vmlinuz"),
        Some("/b/initrd.img"),
        Some("console=ttyS0 loglevel=4"),
        4,
        "EPYC-v4",
        "/tmp/out",
    );
    assert_eq!(a, b);

    // Flip one byte of the command line: the invocation differs.
    let c = calculator.command_args(
        "/o/ovmf.fd",
        Some("/b/vmlinuz"),
        Some("/b/initrd.img"),
        Some("console=ttyS0 loglevel=5"),
        4,
        "EPYC-v4",
        "/tmp/out",
    );
    assert_ne!(a, c);
}

#[test]
fn measurement_check_inputs() {
    // All present.
    assert!(MeasurementCalculator::check_inputs(true, true, Some("/k"), true, Some("/i"), true)
        .is_ok());
    // Script missing.
    assert!(MeasurementCalculator::check_inputs(false, true, None, false, None, false).is_err());
    // OVMF missing.
    assert!(MeasurementCalculator::check_inputs(true, false, None, false, None, false).is_err());
    // Kernel named but absent.
    assert!(MeasurementCalculator::check_inputs(true, true, Some("/k"), false, None, false)
        .is_err());
    // UEFI mode: no kernel or initrd needed.
    assert!(MeasurementCalculator::check_inputs(true, true, None, false, None, false).is_ok());
}
