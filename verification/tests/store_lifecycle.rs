use katana_hypervisor::instance::{InstanceConfig, InstanceState, InstanceStatus};
use katana_hypervisor::lifecycle::{
    begin_stop, complete_start, complete_stop, mark_failed, plan_delete, plan_start, plan_stop,
    reconcile_running, stop_poll_action, DeletePlan, StartPlan, StopAction, StopPlan,
};
use katana_hypervisor::ports::PortAllocator;
use katana_hypervisor::store::StateStore;
use katana_hypervisor::HypervisorError;

fn test_config(rpc_port: u16) -> InstanceConfig {
    InstanceConfig {
        vcpus: 2,
        memory_mb: 1024,
        storage_bytes: 2 * 1024 * 1024 * 1024,
        rpc_port,
        vcpu_type: "host".to_string(),
        tee_mode: false,
        kernel_path: "/boot/vmlinuz".to_string(),
        initrd_path: "/boot/initrd.img".to_string(),
        ovmf_path: None,
        expected_measurement: None,
        katana_args: vec!["--dev".to_string()],
    }
}

fn new_instance(id: &str, name: &str, port: u16) -> InstanceState {
    let mut state = InstanceState::new(id.to_string(), name.to_string(), test_config(port));
    state.qmp_socket = Some(format!("/var/lib/katana/{}/qmp.sock", id));
    state.serial_log = Some(format!("/var/lib/katana/{}/serial.log", id));
    state
}

#[test]
fn lifecycle_create_start_stop_delete() {
    let mut store = StateStore::new();

    // Create.
    store.create_instance(new_instance("id-a", "a", 5050)).unwrap();
    let created = store.get_instance("a").unwrap();
    assert!(matches!(created.status, InstanceStatus::Created));
    assert!(created.vm_pid.is_none());

    // Start: the plan launches, and the commit records Running plus the PID.
    let plan = plan_start(&created, true, true).unwrap();
    match plan {
        StartPlan::Launch(cfg) => {
            assert_eq!(cfg.rpc_port, 5050);
            assert_eq!(cfg.pid_file, "/tmp/katana-hypervisor-id-a.pid");
        }
        StartPlan::AlreadyRunning => panic!("fresh instance reported as running"),
    }
    complete_start(&mut store, "a", 4242).unwrap();
    let running = store.get_instance("a").unwrap();
    assert!(matches!(running.status, InstanceStatus::Running));
    assert_eq!(running.vm_pid, Some(4242));

    // Stop: Stopping keeps the PID, Stopped clears it.
    let stop_plan = plan_stop(&running).unwrap();
    assert!(matches!(stop_plan, StopPlan::Stop(4242)));
    begin_stop(&mut store, "a", 4242).unwrap();
    let stopping = store.get_instance("a").unwrap();
    assert!(matches!(stopping.status, InstanceStatus::Stopping));
    assert_eq!(stopping.vm_pid, Some(4242));
    complete_stop(&mut store, "a").unwrap();
    let stopped = store.get_instance("a").unwrap();
    assert!(matches!(stopped.status, InstanceStatus::Stopped));
    assert!(stopped.vm_pid.is_none());

    // Delete, then the lookup misses.
    let del_plan = plan_delete(&stopped, false).unwrap();
    assert!(matches!(del_plan, DeletePlan::Plain));
    store.delete_instance("a").unwrap();
    assert!(matches!(
        store.get_instance("a"),
        Err(HypervisorError::InstanceNotFound(_))
    ));
}

#[test]
fn create_port_collision_is_conflict() {
    let mut store = StateStore::new();
    store.create_instance(new_instance("id-a", "a", 5050)).unwrap();

    let result = store.create_instance(new_instance("id-b", "b", 5050));
    match result {
        Err(HypervisorError::PortUnavailable(p)) => assert_eq!(p, 5050),
        other => panic!("expected a port conflict, got {:?}", other.is_ok()),
    }
    // The transaction left no trace of `b`.
    assert!(!store.instance_exists("b"));
}

#[test]
fn create_name_conflict() {
    let mut store = StateStore::new();
    store.create_instance(new_instance("id-a", "a", 5050)).unwrap();

    let result = store.create_instance(new_instance("id-a2", "a", 6060));
    assert!(matches!(
        result,
        Err(HypervisorError::InstanceAlreadyExists(_))
    ));
}

#[test]
fn rpc_port_has_identical_reservation_row() {
    let mut store = StateStore::new();
    store.create_instance(new_instance("id-a", "a", 5050)).unwrap();

    let row = store
        .ports
        .iter()
        .find(|p| p.port == 5050)
        .expect("the RPC port must be reserved");
    assert_eq!(row.instance_id, "id-a");
    assert_eq!(row.port_type, "rpc");
}

#[test]
fn pid_recorded_iff_running_or_stopping() {
    let mut store = StateStore::new();
    store.create_instance(new_instance("id-a", "a", 5050)).unwrap();

    // Walk the machine and check the invariant at every persisted state.
    for state in store.list_instances() {
        assert_eq!(
            state.vm_pid.is_some(),
            matches!(state.status, InstanceStatus::Running | InstanceStatus::Stopping)
        );
    }
    complete_start(&mut store, "a", 77).unwrap();
    begin_stop(&mut store, "a", 77).unwrap();
    for state in store.list_instances() {
        assert_eq!(
            state.vm_pid.is_some(),
            matches!(state.status, InstanceStatus::Running | InstanceStatus::Stopping)
        );
    }
    complete_stop(&mut store, "a").unwrap();
    for state in store.list_instances() {
        assert_eq!(
            state.vm_pid.is_some(),
            matches!(state.status, InstanceStatus::Running | InstanceStatus::Stopping)
        );
    }
}

#[test]
fn delete_cascades_ports_and_boot_components() {
    let mut store = StateStore::new();
    store.create_instance(new_instance("id-a", "a", 5050)).unwrap();
    store.create_instance(new_instance("id-b", "b", 6060)).unwrap();
    store
        .add_boot_component("id-a", "kernel", "/boot/vmlinuz", &"0".repeat(64))
        .unwrap();
    store
        .add_boot_component("id-a", "initrd", "/boot/initrd.img", &"1".repeat(64))
        .unwrap();
    store
        .add_boot_component("id-b", "kernel", "/boot/vmlinuz", &"2".repeat(64))
        .unwrap();
    store.allocate_port("id-a", 7070, "metrics").unwrap();

    store.delete_instance("a").unwrap();

    assert!(store.ports.iter().all(|p| p.instance_id != "id-a"));
    assert!(store.components.iter().all(|c| c.instance_id != "id-a"));
    // The other instance's rows survive.
    assert!(store.ports.iter().any(|p| p.port == 6060 && p.instance_id == "id-b"));
    assert!(store.components.iter().any(|c| c.instance_id == "id-b"));
}

#[test]
fn start_is_idempotent_on_running() {
    let mut store = StateStore::new();
    store.create_instance(new_instance("id-a", "a", 5050)).unwrap();
    complete_start(&mut store, "a", 4242).unwrap();

    let running = store.get_instance("a").unwrap();
    let before_ports = store.ports.len();
    let before_instances = store.list_instances().len();

    // The second start plans no launch and mutates nothing.
    let plan = plan_start(&running, true, true).unwrap();
    assert!(matches!(plan, StartPlan::AlreadyRunning));

    let after = store.get_instance("a").unwrap();
    assert_eq!(after.vm_pid, Some(4242));
    assert!(matches!(after.status, InstanceStatus::Running));
    assert_eq!(store.ports.len(), before_ports);
    assert_eq!(store.list_instances().len(), before_instances);
}

#[test]
fn stop_is_idempotent_on_stopped() {
    let mut store = StateStore::new();
    store.create_instance(new_instance("id-a", "a", 5050)).unwrap();
    complete_start(&mut store, "a", 4242).unwrap();
    begin_stop(&mut store, "a", 4242).unwrap();
    complete_stop(&mut store, "a").unwrap();

    let stopped = store.get_instance("a").unwrap();
    let plan = plan_stop(&stopped).unwrap();
    assert!(matches!(plan, StopPlan::AlreadyStopped));

    let after = store.get_instance("a").unwrap();
    assert!(matches!(after.status, InstanceStatus::Stopped));
    assert!(after.vm_pid.is_none());
}

#[test]
fn start_refused_while_transition_in_flight() {
    let mut store = StateStore::new();
    store.create_instance(new_instance("id-a", "a", 5050)).unwrap();
    complete_start(&mut store, "a", 4242).unwrap();
    begin_stop(&mut store, "a", 4242).unwrap();

    let stopping = store.get_instance("a").unwrap();
    assert!(matches!(
        plan_start(&stopping, true, true),
        Err(HypervisorError::InvalidStateTransition { .. })
    ));
}

#[test]
fn start_missing_kernel_fails_before_mutation() {
    let mut store = StateStore::new();
    store.create_instance(new_instance("id-a", "a", 5050)).unwrap();
    let created = store.get_instance("a").unwrap();

    assert!(plan_start(&created, false, true).is_err());
    assert!(plan_start(&created, true, false).is_err());
    // The status never moved.
    let still = store.get_instance("a").unwrap();
    assert!(matches!(still.status, InstanceStatus::Created));
}

#[test]
fn delete_running_requires_force() {
    let mut store = StateStore::new();
    store.create_instance(new_instance("id-a", "a", 5050)).unwrap();
    complete_start(&mut store, "a", 4242).unwrap();
    let running = store.get_instance("a").unwrap();

    assert!(matches!(
        plan_delete(&running, false),
        Err(HypervisorError::InvalidStateTransition { .. })
    ));
    assert!(matches!(plan_delete(&running, true), Ok(DeletePlan::Kill(4242))));
}

#[test]
fn failed_start_records_error_and_clears_pid() {
    let mut store = StateStore::new();
    store.create_instance(new_instance("id-a", "a", 5050)).unwrap();
    mark_failed(&mut store, "a", "spawn failed".to_string()).unwrap();

    let failed = store.get_instance("a").unwrap();
    match failed.status {
        InstanceStatus::Failed { error } => assert_eq!(error, "spawn failed"),
        _ => panic!("expected a Failed status"),
    }
    assert!(failed.vm_pid.is_none());
    // The port reservation is kept.
    assert!(store.ports.iter().any(|p| p.port == 5050));
}

#[test]
fn reconcile_flips_lost_process_to_failed() {
    let mut store = StateStore::new();
    store.create_instance(new_instance("id-a", "a", 5050)).unwrap();
    complete_start(&mut store, "a", 4242).unwrap();

    reconcile_running(&mut store, "a", false).unwrap();
    let lost = store.get_instance("a").unwrap();
    assert!(matches!(lost.status, InstanceStatus::Failed { .. }));
    assert!(lost.vm_pid.is_none());
}

#[test]
fn reconcile_keeps_live_process_running() {
    let mut store = StateStore::new();
    store.create_instance(new_instance("id-a", "a", 5050)).unwrap();
    complete_start(&mut store, "a", 4242).unwrap();

    reconcile_running(&mut store, "a", true).unwrap();
    let alive = store.get_instance("a").unwrap();
    assert!(matches!(alive.status, InstanceStatus::Running));
    assert_eq!(alive.vm_pid, Some(4242));
}

#[test]
fn port_scan_exhausts_after_1000_candidates() {
    let mut store = StateStore::new();
    store.create_instance(new_instance("id-a", "a", 5050)).unwrap();
    // Reserve every candidate the scan may try.
    for offset in 0..1000u16 {
        let port = 5050 + offset;
        if port != 5050 {
            store.allocate_port("id-a", port, "rpc").unwrap();
        }
    }

    let allocator = PortAllocator::new();
    assert!(matches!(
        allocator.allocate_port(&store, 5050),
        Err(HypervisorError::NoPortsAvailable)
    ));
}

#[test]
fn port_scan_stops_at_the_end_of_the_port_range() {
    let store = StateStore::new();
    let allocator = PortAllocator::new();
    // Fewer than 1000 candidates exist above the base: the scan must not wrap.
    let result = allocator.allocate_port(&store, 65530);
    match result {
        Ok(p) => assert!(p >= 65530),
        Err(e) => assert!(matches!(e, HypervisorError::NoPortsAvailable)),
    }
}

#[test]
fn create_new_instance_refuses_taken_name_before_probing() {
    let mut store = StateStore::new();
    store.create_instance(new_instance("id-a", "a", 5050)).unwrap();

    let allocator = PortAllocator::new();
    let result = katana_hypervisor::lifecycle::create_new_instance(
        &mut store,
        &allocator,
        "id-a2".to_string(),
        "a".to_string(),
        test_config(0),
        Some(6060),
        5050,
        "/q".to_string(),
        "/s".to_string(),
    );
    assert!(matches!(
        result,
        Err(HypervisorError::InstanceAlreadyExists(_))
    ));
}

#[test]
fn stop_poll_decision_table() {
    assert!(matches!(stop_poll_action(false, 0, 30), StopAction::Done));
    assert!(matches!(stop_poll_action(false, 99, 30), StopAction::Done));
    assert!(matches!(stop_poll_action(true, 10, 30), StopAction::Wait));
    assert!(matches!(stop_poll_action(true, 30, 30), StopAction::ForceKill));
    assert!(matches!(stop_poll_action(true, 31, 30), StopAction::ForceKill));
}

#[test]
fn list_instances_is_newest_first() {
    let mut store = StateStore::new();
    let mut a = new_instance("id-a", "a", 5050);
    a.created_at = 100;
    let mut b = new_instance("id-b", "b", 5051);
    b.created_at = 300;
    let mut c = new_instance("id-c", "c", 5052);
    c.created_at = 200;
    store.create_instance(a).unwrap();
    store.create_instance(b).unwrap();
    store.create_instance(c).unwrap();

    // Ordered by creation stamp descending, not by insertion order.
    let listed = store.list_instances();
    let names: Vec<&str> = listed.iter().map(|s| s.name.as_str()).collect();
    assert_eq!(names, vec!["b", "c", "a"]);
}

#[test]
fn allocated_ports_are_sorted_ascending() {
    let mut store = StateStore::new();
    store.create_instance(new_instance("id-a", "a", 7070)).unwrap();
    store.create_instance(new_instance("id-b", "b", 5050)).unwrap();
    store.allocate_port("id-a", 6060, "metrics").unwrap();

    // Reservation order was 7070, 5050, 6060; the listing sorts by port.
    assert_eq!(store.get_allocated_ports(), vec![5050, 6060, 7070]);
}

#[test]
fn check_wf_accepts_api_built_stores_and_rejects_broken_rows() {
    let mut store = StateStore::new();
    store.create_instance(new_instance("id-a", "a", 5050)).unwrap();
    complete_start(&mut store, "a", 4242).unwrap();
    assert!(store.check_wf());

    // A PID on a non-running row breaks the per-row invariant.
    let mut broken = store;
    broken.instances[0].status = InstanceStatus::Stopped;
    assert!(!broken.check_wf());
}
