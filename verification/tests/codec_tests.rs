use joycon_rs::joycon::codec::round_trip;
use joycon_rs::joycon::{
    decode, decode_action, encode, Action, ActionKind, DecodeError, HomeLedPattern, InputReport,
    RumblePattern, SimpleRumble,
};

fn step_a() -> SimpleRumble {
    SimpleRumble { freq_low: 160, freq_high: 320, amplitude: 50, duration_ms: 1000 }
}

fn step_b() -> SimpleRumble {
    SimpleRumble { freq_low: 0x0102, freq_high: 0x0304, amplitude: 0xFF, duration_ms: 0xFFFF }
}

fn every_kind() -> Vec<Action> {
    vec![
        Action::new(4, ActionKind::Rumble(RumblePattern::Simple(step_a()))),
        Action::new(5, ActionKind::Rumble(RumblePattern::Complex(vec![step_a(), step_b()]))),
        Action::new(6, ActionKind::Rumble(RumblePattern::Complex(vec![]))),
        Action::new(7, ActionKind::SetPlayerLed { mask: 0b0101 }),
        Action::new(
            1,
            ActionKind::SetHomeLed {
                pattern: HomeLedPattern { intensity: 10, fade_ms: 0x0203, repeat: 3 },
            },
        ),
        Action::new(2, ActionKind::ReadMemory { address: 0x6020, length: 0x18 }),
        Action::new(
            3,
            ActionKind::WriteMemory {
                address: 0x8010,
                bytes: vec![0xAA, 0xBB],
                unsafe_override: false,
            },
        ),
        Action::new(
            255,
            ActionKind::WriteMemory {
                address: 0xFFFF_FFFF,
                bytes: vec![7; 55],
                unsafe_override: true,
            },
        ),
        Action::new(9, ActionKind::QueryBattery),
    ]
}

#[test]
fn encode_player_led() {
    let action = Action::new(7, ActionKind::SetPlayerLed { mask: 0b0101 });
    assert_eq!(encode(&action).bytes, vec![0x01, 7, 0x30, 5]);
}

#[test]
fn encode_query_battery() {
    let action = Action::new(9, ActionKind::QueryBattery);
    assert_eq!(encode(&action).bytes, vec![0x01, 9, 0x50]);
}

#[test]
fn encode_home_led() {
    let pattern = HomeLedPattern { intensity: 10, fade_ms: 0x0203, repeat: 3 };
    let action = Action::new(1, ActionKind::SetHomeLed { pattern });
    assert_eq!(encode(&action).bytes, vec![0x01, 1, 0x38, 10, 3, 0x03, 0x02]);
}

#[test]
fn encode_read_memory() {
    let action = Action::new(2, ActionKind::ReadMemory { address: 0x6020, length: 0x18 });
    assert_eq!(encode(&action).bytes, vec![0x01, 2, 0x10, 0x20, 0x60, 0x00, 0x00, 0x18]);
}

#[test]
fn encode_write_memory() {
    let action = Action::new(
        3,
        ActionKind::WriteMemory { address: 0x8010, bytes: vec![0xAA, 0xBB], unsafe_override: false },
    );
    assert_eq!(
        encode(&action).bytes,
        vec![0x01, 3, 0x11, 0x10, 0x80, 0x00, 0x00, 0x00, 2, 0xAA, 0xBB]
    );
}

#[test]
fn encode_write_memory_with_override_and_wide_address() {
    let action = Action::new(
        3,
        ActionKind::WriteMemory { address: 0x1234_5678, bytes: vec![], unsafe_override: true },
    );
    assert_eq!(encode(&action).bytes, vec![0x01, 3, 0x11, 0x78, 0x56, 0x34, 0x12, 0x01, 0]);
}

#[test]
fn encode_simple_rumble() {
    let action = Action::new(4, ActionKind::Rumble(RumblePattern::Simple(step_a())));
    assert_eq!(
        encode(&action).bytes,
        vec![0x10, 4, 0, 0xA0, 0x00, 0x40, 0x01, 50, 0xE8, 0x03]
    );
}

#[test]
fn encode_complex_rumble() {
    let action =
        Action::new(5, ActionKind::Rumble(RumblePattern::Complex(vec![step_a(), step_b()])));
    assert_eq!(
        encode(&action).bytes,
        vec![
            0x10, 5, 1, 2, 0xA0, 0x00, 0x40, 0x01, 50, 0xE8, 0x03, 0x02, 0x01, 0x04, 0x03, 0xFF,
            0xFF, 0xFF
        ]
    );
}

#[test]
fn longest_frames_fit_the_frame_limit() {
    let write = Action::new(
        0,
        ActionKind::WriteMemory { address: 0, bytes: vec![1; 55], unsafe_override: false },
    );
    assert_eq!(encode(&write).bytes.len(), 64);
    let rumble = Action::new(0, ActionKind::Rumble(RumblePattern::Complex(vec![step_a(); 8])));
    assert_eq!(encode(&rumble).bytes.len(), 60);
}

#[test]
fn round_trip_every_kind() {
    for action in every_kind() {
        let frame = encode(&action);
        assert_eq!(decode_action(&frame.bytes), Ok(action.clone()));
        assert_eq!(round_trip(&action), Ok(action));
    }
}

#[test]
fn simple_and_one_step_complex_rumble_stay_apart() {
    let simple = Action::new(1, ActionKind::Rumble(RumblePattern::Simple(step_a())));
    let complex = Action::new(1, ActionKind::Rumble(RumblePattern::Complex(vec![step_a()])));
    assert_ne!(encode(&simple).bytes, encode(&complex).bytes);
    assert_eq!(decode_action(&encode(&complex).bytes), Ok(complex));
}

#[test]
fn decode_action_rejects_what_is_no_action() {
    assert_eq!(decode_action(&[]), Err(DecodeError::TruncatedFrame));
    assert_eq!(decode_action(&[0x77, 1, 2, 3]), Err(DecodeError::UnknownReportId));
    assert_eq!(decode_action(&[0x01, 1]), Err(DecodeError::TruncatedFrame));
    assert_eq!(decode_action(&[0x01, 1, 0x99]), Err(DecodeError::UnknownReportId));
    assert_eq!(decode_action(&[0x01, 1, 0x30]), Err(DecodeError::TruncatedFrame));
    assert_eq!(decode_action(&[0x01, 1, 0x10, 1, 2, 3, 4]), Err(DecodeError::TruncatedFrame));
    assert_eq!(
        decode_action(&[0x01, 1, 0x11, 0, 0, 0, 0, 0, 3, 1, 2]),
        Err(DecodeError::TruncatedFrame)
    );
    assert_eq!(decode_action(&[0x10, 1, 2, 0]), Err(DecodeError::UnknownReportId));
    assert_eq!(decode_action(&[0x10, 1, 0, 1, 2, 3]), Err(DecodeError::TruncatedFrame));
    assert_eq!(decode_action(&[0x10, 1, 1, 1, 0, 0, 0]), Err(DecodeError::TruncatedFrame));
}

#[test]
fn decode_action_ignores_padding() {
    assert_eq!(
        decode_action(&[0x01, 9, 0x50, 0, 0, 0]),
        Ok(Action::new(9, ActionKind::QueryBattery))
    );
}

#[test]
fn decode_button_stick_state() {
    let frame = [0x3F, 0x01, 0x02, 0x03, 0x34, 0x12, 0x78, 0x56, 0xBC, 0x9A, 0xF0, 0xDE];
    assert_eq!(
        decode(&frame),
        Ok(InputReport::ButtonStickState {
            buttons: 0x030201,
            left_x: 0x1234,
            left_y: 0x5678,
            right_x: 0x9ABC,
            right_y: 0xDEF0,
        })
    );
}

#[test]
fn decode_imu_frame() {
    let frame = [0x30, 1, 0, 2, 0, 3, 0, 4, 0, 5, 0, 0xFF, 0xFF];
    assert_eq!(
        decode(&frame),
        Ok(InputReport::IMUFrame {
            accel_x: 1,
            accel_y: 2,
            accel_z: 3,
            gyro_x: 4,
            gyro_y: 5,
            gyro_z: 0xFFFF,
        })
    );
}

#[test]
fn decode_subcommand_ack() {
    let frame = [0x21, 7, 0x10, 1, 3, 9, 8, 7, 0, 0];
    assert_eq!(
        decode(&frame),
        Ok(InputReport::SubcommandAck {
            correlation: 7,
            subcommand: 0x10,
            accepted: true,
            data: vec![9, 8, 7],
        })
    );
    assert_eq!(
        decode(&[0x21, 7, 0x11, 0, 0]),
        Ok(InputReport::SubcommandAck {
            correlation: 7,
            subcommand: 0x11,
            accepted: false,
            data: vec![],
        })
    );
}

#[test]
fn decode_battery_voltage() {
    assert_eq!(
        decode(&[0x23, 5, 0x68, 0x10, 1]),
        Ok(InputReport::BatteryVoltage { correlation: 5, voltage_mv: 4200, charging: true })
    );
    assert_eq!(
        decode(&[0x23, 5, 0x00, 0x00, 0]),
        Ok(InputReport::BatteryVoltage { correlation: 5, voltage_mv: 0, charging: false })
    );
}

#[test]
fn decode_unknown_report_id_is_an_error_not_a_failure() {
    let known = [0x21u8, 0x23, 0x30, 0x3F];
    for id in 0..=255u8 {
        if known.contains(&id) {
            continue;
        }
        assert_eq!(decode(&[id]), Err(DecodeError::UnknownReportId));
        let mut long = vec![id];
        long.extend_from_slice(&[0xAB; 63]);
        assert_eq!(decode(&long), Err(DecodeError::UnknownReportId));
    }
}

#[test]
fn decode_truncated_frames() {
    assert_eq!(decode(&[]), Err(DecodeError::TruncatedFrame));
    assert_eq!(decode(&[0x3F, 1, 2]), Err(DecodeError::TruncatedFrame));
    assert_eq!(decode(&[0x3F; 11]), Err(DecodeError::TruncatedFrame));
    assert_eq!(decode(&[0x30; 12]), Err(DecodeError::TruncatedFrame));
    assert_eq!(decode(&[0x21, 1, 2, 1]), Err(DecodeError::TruncatedFrame));
    assert_eq!(decode(&[0x21, 1, 2, 1, 5, 0, 0]), Err(DecodeError::TruncatedFrame));
    assert_eq!(decode(&[0x23, 1, 2, 3]), Err(DecodeError::TruncatedFrame));
}
