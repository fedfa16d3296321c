use joycon_rs::joycon::{
    validate, Action, ActionKind, DeviceCapabilities, HomeLedPattern, RumblePattern, SimpleRumble,
    ValidationError,
};

fn step() -> SimpleRumble {
    SimpleRumble { freq_low: 160, freq_high: 320, amplitude: 50, duration_ms: 1000 }
}

fn rumble(step: SimpleRumble) -> Action {
    Action::new(1, ActionKind::Rumble(RumblePattern::Simple(step)))
}

fn write(address: u32, len: usize, unsafe_override: bool) -> Action {
    Action::new(1, ActionKind::WriteMemory { address, bytes: vec![0; len], unsafe_override })
}

fn read(address: u32, length: u8) -> Action {
    Action::new(1, ActionKind::ReadMemory { address, length })
}

#[test]
fn joycon_limits_are_well_formed() {
    let caps = DeviceCapabilities::joycon();
    assert!(caps.is_well_formed());
    assert_eq!(caps.max_payload, 0x1D);
    let mut wide = caps;
    wide.max_payload = 56;
    assert!(!wide.is_well_formed());
    let mut long = caps;
    long.rumble_steps_max = 9;
    assert!(!long.is_well_formed());
}

#[test]
fn rumble_duration_at_limit_is_accepted() {
    let caps = DeviceCapabilities::joycon();
    let action = rumble(SimpleRumble { duration_ms: 5000, ..step() });
    assert_eq!(validate(&action, &caps), Ok(()));
}

#[test]
fn rumble_duration_past_limit_is_rejected() {
    let caps = DeviceCapabilities::joycon();
    let action = rumble(SimpleRumble { duration_ms: 5001, ..step() });
    assert_eq!(validate(&action, &caps), Err(ValidationError::RumbleDurationOutOfRange));
}

#[test]
fn rumble_frequency_bounds() {
    let caps = DeviceCapabilities::joycon();
    assert_eq!(validate(&rumble(SimpleRumble { freq_low: 40, ..step() }), &caps), Ok(()));
    assert_eq!(validate(&rumble(SimpleRumble { freq_low: 626, ..step() }), &caps), Ok(()));
    assert_eq!(validate(&rumble(SimpleRumble { freq_high: 80, ..step() }), &caps), Ok(()));
    assert_eq!(validate(&rumble(SimpleRumble { freq_high: 1252, ..step() }), &caps), Ok(()));
    for bad in [
        SimpleRumble { freq_low: 39, ..step() },
        SimpleRumble { freq_low: 627, ..step() },
        SimpleRumble { freq_high: 79, ..step() },
        SimpleRumble { freq_high: 1253, ..step() },
    ] {
        assert_eq!(
            validate(&rumble(bad), &caps),
            Err(ValidationError::RumbleFrequencyOutOfRange)
        );
    }
}

#[test]
fn rumble_amplitude_bounds() {
    let caps = DeviceCapabilities::joycon();
    assert_eq!(validate(&rumble(SimpleRumble { amplitude: 100, ..step() }), &caps), Ok(()));
    assert_eq!(
        validate(&rumble(SimpleRumble { amplitude: 101, ..step() }), &caps),
        Err(ValidationError::RumbleAmplitudeOutOfRange)
    );
}

#[test]
fn rumble_complaints_come_in_a_fixed_order() {
    let caps = DeviceCapabilities::joycon();
    let all_bad = SimpleRumble { freq_low: 1, freq_high: 1, amplitude: 255, duration_ms: 65535 };
    assert_eq!(
        validate(&rumble(all_bad), &caps),
        Err(ValidationError::RumbleFrequencyOutOfRange)
    );
    let two_bad = SimpleRumble { amplitude: 255, duration_ms: 65535, ..step() };
    assert_eq!(
        validate(&rumble(two_bad), &caps),
        Err(ValidationError::RumbleAmplitudeOutOfRange)
    );
}

#[test]
fn rumble_envelope_length_and_first_bad_step() {
    let caps = DeviceCapabilities::joycon();
    let complex = |steps: Vec<SimpleRumble>| {
        Action::new(1, ActionKind::Rumble(RumblePattern::Complex(steps)))
    };
    assert_eq!(validate(&complex(vec![]), &caps), Ok(()));
    assert_eq!(validate(&complex(vec![step(); 8]), &caps), Ok(()));
    assert_eq!(
        validate(&complex(vec![step(); 9]), &caps),
        Err(ValidationError::RumblePatternTooLong)
    );
    let too_long = SimpleRumble { duration_ms: 5001, ..step() };
    let too_strong = SimpleRumble { amplitude: 200, ..step() };
    assert_eq!(
        validate(&complex(vec![step(), too_long, too_strong]), &caps),
        Err(ValidationError::RumbleDurationOutOfRange)
    );
    assert_eq!(
        validate(&complex(vec![step(), step(), too_strong]), &caps),
        Err(ValidationError::RumbleAmplitudeOutOfRange)
    );
    let mut none = caps;
    none.rumble_steps_max = 0;
    assert_eq!(validate(&rumble(step()), &none), Err(ValidationError::RumblePatternTooLong));
}

#[test]
fn memory_write_length_at_max_payload_is_accepted() {
    let caps = DeviceCapabilities::joycon();
    assert_eq!(validate(&write(0x8010, 0x1D, false), &caps), Ok(()));
}

#[test]
fn memory_write_length_past_max_payload_is_rejected() {
    let caps = DeviceCapabilities::joycon();
    assert_eq!(
        validate(&write(0x8010, 0x1E, false), &caps),
        Err(ValidationError::PayloadTooLong)
    );
}

#[test]
fn memory_read_length_bounds() {
    let caps = DeviceCapabilities::joycon();
    assert_eq!(validate(&read(0x6020, 0x1D), &caps), Ok(()));
    assert_eq!(validate(&read(0x6020, 0x1E), &caps), Err(ValidationError::PayloadTooLong));
}

#[test]
fn memory_window_bounds() {
    let mut caps = DeviceCapabilities::joycon();
    caps.memory_start = 0x1000;
    assert_eq!(validate(&read(0x1000, 4), &caps), Ok(()));
    assert_eq!(validate(&read(0x0FFF, 4), &caps), Err(ValidationError::AddressOutOfWindow));
    assert_eq!(validate(&read(0x80000 - 4, 4), &caps), Ok(()));
    assert_eq!(validate(&read(0x80000 - 3, 4), &caps), Err(ValidationError::AddressOutOfWindow));
    assert_eq!(
        validate(&write(0xFFFF_FFFF, 2, true), &caps),
        Err(ValidationError::AddressOutOfWindow)
    );
    assert_eq!(validate(&write(0x80000, 0, false), &caps), Ok(()));
}

#[test]
fn reserved_range_needs_the_override() {
    let caps = DeviceCapabilities::joycon();
    assert_eq!(validate(&write(0x6000, 4, false), &caps), Err(ValidationError::ReservedAddress));
    assert_eq!(validate(&write(0x6FFF, 1, false), &caps), Err(ValidationError::ReservedAddress));
    assert_eq!(validate(&write(0x5FFE, 3, false), &caps), Err(ValidationError::ReservedAddress));
    assert_eq!(validate(&write(0x5FFE, 2, false), &caps), Ok(()));
    assert_eq!(validate(&write(0x7000, 4, false), &caps), Ok(()));
    assert_eq!(validate(&write(0x6000, 0, false), &caps), Ok(()));
    assert_eq!(validate(&write(0x6000, 4, true), &caps), Ok(()));
    assert_eq!(validate(&read(0x6000, 4), &caps), Ok(()));
}

#[test]
fn led_mask_within_bit_width() {
    let caps = DeviceCapabilities::joycon();
    let led = |mask: u8| Action::new(1, ActionKind::SetPlayerLed { mask });
    assert_eq!(validate(&led(0), &caps), Ok(()));
    assert_eq!(validate(&led(0x0F), &caps), Ok(()));
    assert_eq!(validate(&led(0x10), &caps), Err(ValidationError::LedMaskOutOfRange));
    assert_eq!(validate(&led(0xFF), &caps), Err(ValidationError::LedMaskOutOfRange));
    let mut all = caps;
    all.player_led_bits = 8;
    assert_eq!(validate(&led(0xFF), &all), Ok(()));
    all.player_led_bits = 200;
    assert_eq!(validate(&led(0xFF), &all), Ok(()));
    let mut none = caps;
    none.player_led_bits = 0;
    assert_eq!(validate(&led(0), &none), Ok(()));
    assert_eq!(validate(&led(1), &none), Err(ValidationError::LedMaskOutOfRange));
}

#[test]
fn home_led_intensity_bounds() {
    let caps = DeviceCapabilities::joycon();
    let home = |intensity: u8| {
        Action::new(
            1,
            ActionKind::SetHomeLed { pattern: HomeLedPattern { intensity, fade_ms: 0, repeat: 0 } },
        )
    };
    assert_eq!(validate(&home(15), &caps), Ok(()));
    assert_eq!(validate(&home(16), &caps), Err(ValidationError::HomeLedOutOfRange));
}

#[test]
fn battery_query_is_always_valid() {
    let caps = DeviceCapabilities::joycon();
    assert_eq!(validate(&Action::new(0, ActionKind::QueryBattery), &caps), Ok(()));
    assert_eq!(caps.validate(&Action::new(0, ActionKind::QueryBattery)), Ok(()));
}
