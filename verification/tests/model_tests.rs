use joycon_rs::joycon::model::{bytes_equal, copy_bytes};
use joycon_rs::joycon::{
    Action, ActionKind, Axis, AxisCalibration, CalibrationProfile, DeviceIdentity, DeviceState,
    InputReport, RumblePattern, SimpleRumble,
};

#[test]
fn joycon_identities() {
    assert!(DeviceIdentity::new(1406, 8198, vec![]).is_joycon());
    assert!(DeviceIdentity::new(1406, 8199, vec![]).is_joycon());
    assert!(!DeviceIdentity::new(1406, 8197, vec![]).is_joycon());
    assert!(!DeviceIdentity::new(1406, 8200, vec![]).is_joycon());
    assert!(!DeviceIdentity::new(1405, 8198, vec![]).is_joycon());
}

#[test]
fn same_device_compares_every_part() {
    let id = DeviceIdentity::new(1406, 8198, vec![1, 2, 3]);
    assert!(id.same_device(&id.duplicate()));
    assert_eq!(id.duplicate(), id);
    assert!(!id.same_device(&DeviceIdentity::new(1406, 8199, vec![1, 2, 3])));
    assert!(!id.same_device(&DeviceIdentity::new(1407, 8198, vec![1, 2, 3])));
    assert!(!id.same_device(&DeviceIdentity::new(1406, 8198, vec![1, 2, 4])));
    assert!(!id.same_device(&DeviceIdentity::new(1406, 8198, vec![1, 2])));
    assert!(!id.same_device(&DeviceIdentity::new(1406, 8198, vec![1, 2, 3, 0])));
}

#[test]
fn byte_helpers() {
    assert_eq!(copy_bytes(&vec![]), Vec::<u8>::new());
    assert_eq!(copy_bytes(&vec![1, 2, 3]), vec![1, 2, 3]);
    assert!(bytes_equal(&vec![], &vec![]));
    assert!(bytes_equal(&vec![5, 6], &vec![5, 6]));
    assert!(!bytes_equal(&vec![5, 6], &vec![5, 7]));
    assert!(!bytes_equal(&vec![5, 6], &vec![5]));
}

#[test]
fn device_state_tests() {
    assert!(DeviceState::Connected.is_connected());
    assert!(!DeviceState::Discovered.is_connected());
    assert!(!DeviceState::Disconnecting.is_connected());
    assert!(DeviceState::Disconnected.is_disconnected());
    assert!(!DeviceState::Disconnecting.is_disconnected());
}

#[test]
fn duplicates_are_equal() {
    let step = SimpleRumble { freq_low: 1, freq_high: 2, amplitude: 3, duration_ms: 4 };
    for action in [
        Action::new(1, ActionKind::Rumble(RumblePattern::Simple(step))),
        Action::new(2, ActionKind::Rumble(RumblePattern::Complex(vec![step, step]))),
        Action::new(3, ActionKind::WriteMemory { address: 9, bytes: vec![1, 2], unsafe_override: true }),
        Action::new(4, ActionKind::QueryBattery),
    ] {
        assert_eq!(action.duplicate(), action);
    }
    let report =
        InputReport::SubcommandAck { correlation: 1, subcommand: 2, accepted: true, data: vec![3, 4] };
    assert_eq!(report.duplicate(), report);
    assert_eq!(report.report_id(), 0x21);
    assert_eq!(report.correlation(), Some(1));
    let imu = InputReport::IMUFrame {
        accel_x: 1,
        accel_y: 2,
        accel_z: 3,
        gyro_x: 4,
        gyro_y: 5,
        gyro_z: 6,
    };
    assert_eq!(imu.duplicate(), imu);
    assert_eq!(imu.report_id(), 0x30);
    assert_eq!(imu.correlation(), None);
}

#[test]
fn calibration_scales_the_deflection() {
    let axis = AxisCalibration { offset: 2048, scale: 3 };
    assert_eq!(axis.apply(2048), 0);
    assert_eq!(axis.apply(2058), 30);
    assert_eq!(axis.apply(2038), -30);
    let extreme = AxisCalibration { offset: 65535, scale: 65535 };
    assert_eq!(extreme.apply(0), -65535 * 65535);
    assert_eq!(AxisCalibration { offset: 0, scale: 65535 }.apply(65535), 65535 * 65535);
}

#[test]
fn neutral_profile_leaves_readings_alone() {
    let profile = CalibrationProfile::neutral();
    for axis in [Axis::LeftStickX, Axis::RightStickY, Axis::AccelX, Axis::GyroZ] {
        assert_eq!(profile.get(axis), AxisCalibration { offset: 0, scale: 1 });
        assert_eq!(profile.apply(axis, 1234), 1234);
    }
}

#[test]
fn factory_page_holds_every_axis() {
    let mut page = Vec::new();
    for i in 0..10u8 {
        page.extend_from_slice(&[i, 1, i + 1, 2]);
    }
    let profile = CalibrationProfile::from_factory_page(&page).unwrap();
    assert_eq!(profile.get(Axis::LeftStickX), AxisCalibration { offset: 0x0100, scale: 0x0201 });
    assert_eq!(profile.get(Axis::LeftStickY), AxisCalibration { offset: 0x0101, scale: 0x0202 });
    assert_eq!(profile.get(Axis::RightStickX), AxisCalibration { offset: 0x0102, scale: 0x0203 });
    assert_eq!(profile.get(Axis::RightStickY), AxisCalibration { offset: 0x0103, scale: 0x0204 });
    assert_eq!(profile.get(Axis::AccelX), AxisCalibration { offset: 0x0104, scale: 0x0205 });
    assert_eq!(profile.get(Axis::AccelY), AxisCalibration { offset: 0x0105, scale: 0x0206 });
    assert_eq!(profile.get(Axis::AccelZ), AxisCalibration { offset: 0x0106, scale: 0x0207 });
    assert_eq!(profile.get(Axis::GyroX), AxisCalibration { offset: 0x0107, scale: 0x0208 });
    assert_eq!(profile.get(Axis::GyroY), AxisCalibration { offset: 0x0108, scale: 0x0209 });
    assert_eq!(profile.get(Axis::GyroZ), AxisCalibration { offset: 0x0109, scale: 0x020A });
    assert_eq!(CalibrationProfile::from_factory_page(&page[..39]), None);
    page.push(0xFF);
    assert_eq!(CalibrationProfile::from_factory_page(&page), Some(profile));
}

#[test]
fn override_produces_a_new_profile() {
    let profile = CalibrationProfile::neutral();
    let changed = profile.with_override(Axis::GyroY, AxisCalibration { offset: 7, scale: 9 });
    assert_eq!(profile.get(Axis::GyroY), AxisCalibration { offset: 0, scale: 1 });
    assert_eq!(changed.get(Axis::GyroY), AxisCalibration { offset: 7, scale: 9 });
    assert_eq!(changed.get(Axis::GyroX), AxisCalibration { offset: 0, scale: 1 });
    assert_eq!(changed.get(Axis::GyroZ), AxisCalibration { offset: 0, scale: 1 });
    assert_ne!(profile, changed);
}
