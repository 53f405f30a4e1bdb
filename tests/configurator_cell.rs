use aojia::configurator::{configuration_status, ConfiguratorCell, CONFIGURATOR_FLAGS};

#[test]
fn only_the_first_module_directory_is_loaded() {
    let mut cell = ConfiguratorCell::new();
    let mut loads: Vec<String> = Vec::new();
    for dir in ["C:\\first", "C:\\second"] {
        if let Some(d) = cell.load_request(dir) {
            loads.push(d);
            cell.settle(Some(0x1000));
        }
    }
    assert_eq!(loads, vec!["C:\\first".to_string()]);
    assert_eq!(cell.settled(), Some(Some(0x1000)));
}

#[test]
fn a_second_outcome_is_ignored() {
    let mut cell = ConfiguratorCell::new();
    assert!(cell.settle(None));
    assert!(!cell.settle(Some(0x2000)));
    assert_eq!(cell.settled(), Some(None));
}

#[test]
fn missing_module_degrades_to_zero() {
    let mut cell = ConfiguratorCell::new();
    assert_eq!(cell.load_request("Z:\\does\\not\\exist"), Some("Z:\\does\\not\\exist".to_string()));
    cell.settle(None);
    let plan = cell.plan_invocation("C:\\target");
    assert!(plan.is_none());
    assert_eq!(configuration_status(plan.map(|_| 7)), 0);
}

#[test]
fn unsettled_cell_plans_no_call() {
    let cell = ConfiguratorCell::new();
    assert_eq!(cell.settled(), None);
    assert!(cell.plan_invocation("C:\\target").is_none());
}

#[test]
fn resolved_entry_is_called_with_target_and_zero_flags() {
    let mut cell = ConfiguratorCell::new();
    cell.settle(Some(0xdead));
    let call = cell.plan_invocation("C:\\aojia").unwrap();
    assert_eq!(call.entry, 0xdead);
    assert_eq!(call.target_dir, "C:\\aojia");
    assert_eq!(call.flags, 0);
    assert_eq!(CONFIGURATOR_FLAGS, 0);
    assert_eq!(configuration_status(Some(1)), 1);
    assert_eq!(configuration_status(Some(-3)), -3);
}
