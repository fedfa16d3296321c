use joycon_rs::joycon::{
    Axis, AxisCalibration, CalibrationProfile, DeviceCapabilities, DeviceIdentity, DeviceState,
    DiscoveryReport, HandlerStatus, InputReport, JoyconError, JoyconManager, ReadError,
};

type Handler = fn(&InputReport) -> HandlerStatus;

fn manager() -> JoyconManager<Handler> {
    JoyconManager::new(DeviceCapabilities::joycon(), CalibrationProfile::neutral()).unwrap()
}

fn device(product_id: u16, path: &str) -> DeviceIdentity {
    DeviceIdentity::new(1406, product_id, path.as_bytes().to_vec())
}

/// One full cycle: discovery, then a successful open of every new device.
fn cycle(manager: &mut JoyconManager<Handler>, visible: &Vec<DeviceIdentity>) -> DiscoveryReport<Handler> {
    let report = manager.search_for_joycons(visible);
    let first_new = manager.connected_joycons.len() - report.added;
    let new_ids: Vec<DeviceIdentity> =
        manager.connected_joycons[first_new..].iter().map(|j| j.identity().clone()).collect();
    for id in &new_ids {
        assert_eq!(manager.on_open(id, true), Ok(()));
    }
    report
}

fn identities(manager: &JoyconManager<Handler>) -> Vec<DeviceIdentity> {
    manager.connected_joycons.iter().map(|j| j.identity().clone()).collect()
}

#[test]
fn manager_refuses_limits_that_overflow_a_frame() {
    let caps = DeviceCapabilities { rumble_steps_max: 9, ..DeviceCapabilities::joycon() };
    let res: Result<JoyconManager<Handler>, JoyconError> =
        JoyconManager::new(caps, CalibrationProfile::neutral());
    assert!(matches!(res, Err(JoyconError::InitializationError(_))));
}

#[test]
fn one_visible_joycon_gets_one_connected_engine() {
    let mut manager = manager();
    assert!(manager.connected_joycons.is_empty());
    let visible = vec![device(8198, "left")];
    let report = manager.search_for_joycons(&visible);
    assert_eq!(report.added, 1);
    assert!(report.retired.is_empty());
    assert_eq!(manager.connected_joycons.len(), 1);
    assert_eq!(manager.connected_joycons[0].state(), DeviceState::Discovered);
    assert_eq!(manager.on_open(&visible[0], true), Ok(()));
    assert_eq!(manager.connected_joycons.len(), 1);
    let engine = &manager.connected_joycons[0];
    assert_eq!(engine.state(), DeviceState::Connected);
    assert_eq!(*engine.identity(), device(8198, "left"));
    assert_eq!(engine.identity().vendor_id, 1406);
    assert_eq!(engine.identity().product_id, 8198);
    assert_eq!(engine.capabilities(), DeviceCapabilities::joycon());
    assert_eq!(manager.find(&device(8198, "left")), Some(0));
    assert_eq!(manager.find(&device(8199, "left")), None);
}

#[test]
fn discovery_is_idempotent_while_nothing_changes() {
    let mut manager = manager();
    let visible = vec![device(8198, "left"), device(8199, "right")];
    assert_eq!(cycle(&mut manager, &visible).added, 2);
    manager.connected_joycons[0].add_input_thread_callback(|_| HandlerStatus::Done);
    let report = cycle(&mut manager, &visible);
    assert_eq!(report.added, 0);
    assert!(report.retired.is_empty());
    assert_eq!(identities(&manager), visible);
    assert_eq!(manager.connected_joycons[0].handler_count(), 1);
}

#[test]
fn only_joycons_are_taken_in_and_each_only_once() {
    let mut manager = manager();
    let visible = vec![
        DeviceIdentity::new(1406, 8200, b"pro".to_vec()),
        device(8199, "right"),
        DeviceIdentity::new(1407, 8198, b"other".to_vec()),
        device(8198, "left"),
        device(8199, "right"),
        device(8199, "right2"),
    ];
    let report = manager.search_for_joycons(&visible);
    assert_eq!(report.added, 3);
    assert_eq!(
        identities(&manager),
        vec![device(8199, "right"), device(8198, "left"), device(8199, "right2")]
    );
    assert!(manager.connected_joycons.iter().all(|j| j.state() == DeviceState::Discovered));
}

#[test]
fn engine_of_a_vanished_device_is_shut_down_and_removed() {
    let mut manager = manager();
    cycle(&mut manager, &vec![device(8198, "left"), device(8199, "right")]);
    manager.connected_joycons[0].read_memory(1, 0x6020, 4, 0).unwrap();
    let report = cycle(&mut manager, &vec![device(8199, "right")]);
    assert_eq!(report.added, 0);
    assert_eq!(report.retired.len(), 1);
    assert_eq!(identities(&manager), vec![device(8199, "right")]);
    let mut gone = report.retired;
    assert_eq!(*gone[0].identity(), device(8198, "left"));
    assert_eq!(gone[0].state(), DeviceState::Disconnected);
    assert_eq!(gone[0].take_reply(1, 0), Err(JoyconError::Cancelled));
}

#[test]
fn read_failure_retires_the_engine_on_the_next_cycle() {
    let mut manager = manager();
    let visible = vec![device(8198, "left"), device(8199, "right")];
    cycle(&mut manager, &visible);
    manager.connected_joycons[0].read_memory(1, 0x6020, 4, 0).unwrap();
    assert!(!manager.connected_joycons[0].on_read_error(ReadError::Disconnected));
    assert_eq!(manager.connected_joycons[0].state(), DeviceState::Disconnected);
    assert_eq!(manager.connected_joycons[0].take_reply(1, 0), Err(JoyconError::Transport));
    let report = cycle(&mut manager, &vec![device(8199, "right")]);
    assert_eq!(report.retired.len(), 1);
    assert_eq!(*report.retired[0].identity(), device(8198, "left"));
    assert_eq!(identities(&manager), vec![device(8199, "right")]);
}

#[test]
fn disconnected_engine_is_replaced_when_the_device_is_still_there() {
    let mut manager = manager();
    let visible = vec![device(8198, "left"), device(8199, "right")];
    cycle(&mut manager, &visible);
    manager.connected_joycons[0].add_input_thread_callback(|_| HandlerStatus::Done);
    manager.connected_joycons[0].on_read_error(ReadError::Disconnected);
    let report = cycle(&mut manager, &visible);
    assert_eq!(report.added, 1);
    assert_eq!(report.retired.len(), 1);
    assert_eq!(report.retired[0].handler_count(), 1);
    assert_eq!(identities(&manager), vec![device(8199, "right"), device(8198, "left")]);
    assert_eq!(manager.connected_joycons[1].state(), DeviceState::Connected);
    assert_eq!(manager.connected_joycons[1].handler_count(), 0);
}

#[test]
fn disconnecting_engine_is_retired_too() {
    let mut manager = manager();
    let visible = vec![device(8198, "left")];
    cycle(&mut manager, &visible);
    manager.connected_joycons[0].write_done(false);
    assert_eq!(manager.connected_joycons[0].state(), DeviceState::Disconnecting);
    let report = manager.search_for_joycons(&vec![]);
    assert_eq!(report.retired.len(), 1);
    assert_eq!(report.retired[0].state(), DeviceState::Disconnected);
    assert!(manager.connected_joycons.is_empty());
}

#[test]
fn new_engines_get_the_calibration_of_the_manager() {
    let profile = CalibrationProfile::neutral()
        .with_override(Axis::LeftStickX, AxisCalibration { offset: 2048, scale: 3 });
    let mut manager: JoyconManager<Handler> =
        JoyconManager::new(DeviceCapabilities::joycon(), profile).unwrap();
    manager.search_for_joycons(&vec![device(8198, "left")]);
    assert_eq!(manager.connected_joycons[0].calibration(), profile);
    assert_eq!(manager.connected_joycons[0].calibration().apply(Axis::LeftStickX, 2058), 30);
}

#[test]
fn device_that_cannot_be_opened_is_skipped() {
    let mut manager = manager();
    let visible = vec![device(8198, "left"), device(8199, "right")];
    manager.search_for_joycons(&visible);
    assert_eq!(manager.on_open(&visible[0], false), Err(JoyconError::Open));
    assert_eq!(identities(&manager), vec![device(8199, "right")]);
    assert_eq!(manager.on_open(&visible[0], true), Err(JoyconError::NotConnected));
    assert_eq!(manager.on_open(&visible[0], false), Err(JoyconError::NotConnected));
    assert_eq!(manager.on_open(&visible[1], true), Ok(()));
    assert_eq!(manager.connected_joycons[0].state(), DeviceState::Connected);
    assert_eq!(manager.on_open(&visible[1], true), Ok(()));
    assert_eq!(manager.connected_joycons[0].state(), DeviceState::Connected);
    let report = manager.search_for_joycons(&visible);
    assert_eq!(report.added, 1);
    assert_eq!(identities(&manager), vec![device(8199, "right"), device(8198, "left")]);
}

#[test]
fn failed_enumeration_leaves_the_registry_alone() {
    let mut manager = manager();
    let visible = vec![device(8198, "left")];
    let report = manager.discovery_cycle(Some(&visible)).unwrap();
    assert_eq!(report.added, 1);
    manager.on_open(&visible[0], true).unwrap();
    assert!(matches!(manager.discovery_cycle(None), Err(JoyconError::Discovery)));
    assert_eq!(identities(&manager), visible);
    assert_eq!(manager.connected_joycons[0].state(), DeviceState::Connected);
    let report = manager.discovery_cycle(Some(&vec![])).unwrap();
    assert_eq!(report.retired.len(), 1);
    assert!(manager.connected_joycons.is_empty());
}
