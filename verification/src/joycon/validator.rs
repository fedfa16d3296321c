//! The action validator: checks an action's parameters against what a device
//! supports, before the action is encoded or queued.

use vstd::prelude::*;
use crate::joycon::action::{
    Action, ActionKind, ActionKindView, ActionView, RumblePattern, SimpleRumble,
};
use crate::joycon::model::{MAX_RUMBLE_STEPS, MAX_WRITE_PAYLOAD};

verus! {

/// The limits of one kind of device.
#[derive(Debug, Clone, Copy, PartialEq, Eq)]
pub struct DeviceCapabilities {
    pub rumble_freq_low_min: u16,
    pub rumble_freq_low_max: u16,
    pub rumble_freq_high_min: u16,
    pub rumble_freq_high_max: u16,
    pub rumble_amplitude_max: u8,
    pub rumble_duration_max_ms: u16,
    /// Most steps in one rumble envelope.
    pub rumble_steps_max: u8,
    /// Most bytes that one memory read or write moves.
    pub max_payload: u8,
    /// First address that memory actions may touch.
    pub memory_start: u32,
    /// First address past the window that memory actions may touch.
    pub memory_end: u32,
    /// First address of the range that only an overriding write may touch.
    pub reserved_start: u32,
    /// First address past that range.
    pub reserved_end: u32,
    /// Number of low bits of a player light mask that the device has lights for.
    pub player_led_bits: u8,
    pub home_led_intensity_max: u8,
    /// How long, in milliseconds, a caller waits for a correlated reply.
    pub reply_timeout_ms: u64,
}

/// Why an action was rejected.
#[derive(Debug, Clone, Copy, PartialEq, Eq)]
pub enum ValidationError {
    RumbleFrequencyOutOfRange,
    RumbleAmplitudeOutOfRange,
    RumbleDurationOutOfRange,
    RumblePatternTooLong,
    LedMaskOutOfRange,
    HomeLedOutOfRange,
    PayloadTooLong,
    AddressOutOfWindow,
    ReservedAddress,
}

/// The mask uses none but the lowest `bits` bits.
pub open spec fn led_mask_fits(mask: u8, bits: u8) -> bool {
    bits >= 8 || (mask as u16) < (1u16 << (bits as u16))
}

impl DeviceCapabilities {
    /// The limits leave every accepted action small enough for one frame.
    pub open spec fn wf(self) -> bool {
        &&& self.max_payload <= MAX_WRITE_PAYLOAD
        &&& self.rumble_steps_max <= MAX_RUMBLE_STEPS
    }

    /// The step's frequencies lie in the supported bands.
    pub open spec fn frequency_ok(self, step: SimpleRumble) -> bool {
        &&& self.rumble_freq_low_min <= step.freq_low <= self.rumble_freq_low_max
        &&& self.rumble_freq_high_min <= step.freq_high <= self.rumble_freq_high_max
    }

    /// Every parameter of the step is within the limits.
    pub open spec fn step_ok(self, step: SimpleRumble) -> bool {
        &&& self.frequency_ok(step)
        &&& step.amplitude <= self.rumble_amplitude_max
        &&& step.duration_ms <= self.rumble_duration_max_ms
    }

    /// The complaint about one step, if there is one: frequency before
    /// amplitude before duration.
    pub open spec fn step_error(self, step: SimpleRumble) -> Option<ValidationError> {
        if !self.frequency_ok(step) {
            Some(ValidationError::RumbleFrequencyOutOfRange)
        } else if step.amplitude > self.rumble_amplitude_max {
            Some(ValidationError::RumbleAmplitudeOutOfRange)
        } else if step.duration_ms > self.rumble_duration_max_ms {
            Some(ValidationError::RumbleDurationOutOfRange)
        } else {
            None
        }
    }

    /// Index of the first step at or after `from` that breaks a limit, or the
    /// number of steps if none does.
    pub open spec fn first_bad_step(self, steps: Seq<SimpleRumble>, from: int) -> int
        decreases steps.len() - from,
    {
        if from < 0 || from >= steps.len() {
            steps.len() as int
        } else if !self.step_ok(steps[from]) {
            from
        } else {
            self.first_bad_step(steps, from + 1)
        }
    }

    /// The bytes `address .. address + length` lie inside the memory window.
    pub open spec fn in_window(self, address: u32, length: int) -> bool {
        self.memory_start <= address && address + length <= self.memory_end
    }

    /// The bytes `address .. address + length` reach into the reserved range.
    pub open spec fn touches_reserved(self, address: u32, length: int) -> bool {
        length > 0 && address < self.reserved_end && address + length > self.reserved_start
    }

    /// Every parameter of the action is within the limits.
    pub open spec fn within_bounds(self, action: ActionView) -> bool {
        match action.kind {
            ActionKindView::Rumble(pattern) => {
                &&& pattern.steps().len() <= self.rumble_steps_max
                &&& forall|i: int|
                    0 <= i < pattern.steps().len() ==> self.step_ok(#[trigger] pattern.steps()[i])
            },
            ActionKindView::SetPlayerLed { mask } => led_mask_fits(mask, self.player_led_bits),
            ActionKindView::SetHomeLed { pattern } => pattern.intensity
                <= self.home_led_intensity_max,
            ActionKindView::ReadMemory { address, length } => {
                &&& length <= self.max_payload
                &&& self.in_window(address, length as int)
            },
            ActionKindView::WriteMemory { address, bytes, unsafe_override } => {
                &&& bytes.len() <= self.max_payload
                &&& self.in_window(address, bytes.len() as int)
                &&& (unsafe_override || !self.touches_reserved(address, bytes.len() as int))
            },
            ActionKindView::QueryBattery => true,
        }
    }

    /// The complaint about a rumble, if there is one: the length of the
    /// envelope first, then the first step that breaks a limit.
    pub open spec fn rumble_error(self, steps: Seq<SimpleRumble>) -> Option<ValidationError> {
        if steps.len() > self.rumble_steps_max {
            Some(ValidationError::RumblePatternTooLong)
        } else if self.first_bad_step(steps, 0) < steps.len() {
            self.step_error(steps[self.first_bad_step(steps, 0)])
        } else {
            None
        }
    }

    /// The complaint about a memory access, if there is one: the length
    /// first, then the window, then the reserved range.
    pub open spec fn memory_error(self, address: u32, length: int, guarded: bool) -> Option<
        ValidationError,
    > {
        if length > self.max_payload {
            Some(ValidationError::PayloadTooLong)
        } else if !self.in_window(address, length) {
            Some(ValidationError::AddressOutOfWindow)
        } else if guarded && self.touches_reserved(address, length) {
            Some(ValidationError::ReservedAddress)
        } else {
            None
        }
    }

    /// The complaint that validation raises about the action, if any.
    pub open spec fn validation_error(self, action: ActionView) -> Option<ValidationError> {
        match action.kind {
            ActionKindView::Rumble(pattern) => self.rumble_error(pattern.steps()),
            ActionKindView::SetPlayerLed { mask } => if led_mask_fits(mask, self.player_led_bits) {
                None
            } else {
                Some(ValidationError::LedMaskOutOfRange)
            },
            ActionKindView::SetHomeLed { pattern } => if pattern.intensity
                <= self.home_led_intensity_max {
                None
            } else {
                Some(ValidationError::HomeLedOutOfRange)
            },
            ActionKindView::ReadMemory { address, length } => self.memory_error(
                address,
                length as int,
                false,
            ),
            ActionKindView::WriteMemory { address, bytes, unsafe_override } => self.memory_error(
                address,
                bytes.len() as int,
                !unsafe_override,
            ),
            ActionKindView::QueryBattery => None,
        }
    }

    /// What validation returns for the action.
    pub open spec fn validation_result(self, action: ActionView) -> Result<(), ValidationError> {
        match self.validation_error(action) {
            None => Ok(()),
            Some(e) => Err(e),
        }
    }

    /// The first bad step lies between `from` and the end, every step before
    /// it is fine, and it is bad itself unless it is the end.
    pub proof fn lemma_first_bad_step(self, steps: Seq<SimpleRumble>, from: int)
        requires
            0 <= from <= steps.len(),
        ensures
            from <= self.first_bad_step(steps, from) <= steps.len(),
            forall|i: int|
                from <= i < self.first_bad_step(steps, from) ==> self.step_ok(#[trigger] steps[i]),
            self.first_bad_step(steps, from) < steps.len() ==> !self.step_ok(
                steps[self.first_bad_step(steps, from)],
            ),
        decreases steps.len() - from,
    {
        if from < steps.len() && self.step_ok(steps[from]) {
            self.lemma_first_bad_step(steps, from + 1);
        }
    }

    /// Validation raises no complaint exactly when every parameter of the
    /// action is within the limits.
    pub proof fn lemma_valid_iff_within_bounds(self, action: ActionView)
        ensures
            self.validation_result(action).is_ok() <==> self.within_bounds(action),
    {
        match action.kind {
            ActionKindView::Rumble(pattern) => {
                self.lemma_first_bad_step(pattern.steps(), 0);
            },
            _ => {},
        }
    }

    /// The limits of a Joy-Con.
    pub open spec fn joycon_limits() -> DeviceCapabilities {
        DeviceCapabilities {
            rumble_freq_low_min: 40,
            rumble_freq_low_max: 626,
            rumble_freq_high_min: 80,
            rumble_freq_high_max: 1252,
            rumble_amplitude_max: 100,
            rumble_duration_max_ms: 5000,
            rumble_steps_max: MAX_RUMBLE_STEPS,
            max_payload: 0x1D,
            memory_start: 0,
            memory_end: 0x80000,
            reserved_start: 0x6000,
            reserved_end: 0x7000,
            player_led_bits: 4,
            home_led_intensity_max: 15,
            reply_timeout_ms: 1000,
        }
    }

    /// The limits of a Joy-Con.
    pub fn joycon() -> (caps: DeviceCapabilities)
        ensures
            caps == Self::joycon_limits(),
            caps.wf(),
    {
        DeviceCapabilities {
            rumble_freq_low_min: 40,
            rumble_freq_low_max: 626,
            rumble_freq_high_min: 80,
            rumble_freq_high_max: 1252,
            rumble_amplitude_max: 100,
            rumble_duration_max_ms: 5000,
            rumble_steps_max: MAX_RUMBLE_STEPS,
            max_payload: 0x1D,
            memory_start: 0,
            memory_end: 0x80000,
            reserved_start: 0x6000,
            reserved_end: 0x7000,
            player_led_bits: 4,
            home_led_intensity_max: 15,
            reply_timeout_ms: 1000,
        }
    }

    /// Tells whether the limits leave every accepted action small enough for
    /// one frame.
    pub fn is_well_formed(&self) -> (yes: bool)
        ensures
            yes == self.wf(),
    {
        self.max_payload <= MAX_WRITE_PAYLOAD && self.rumble_steps_max <= MAX_RUMBLE_STEPS
    }

    fn check_step(&self, step: &SimpleRumble) -> (res: Option<ValidationError>)
        ensures
            res == self.step_error(*step),
            res.is_none() <==> self.step_ok(*step),
    {
        if step.freq_low < self.rumble_freq_low_min || step.freq_low > self.rumble_freq_low_max
            || step.freq_high < self.rumble_freq_high_min || step.freq_high
            > self.rumble_freq_high_max {
            Some(ValidationError::RumbleFrequencyOutOfRange)
        } else if step.amplitude > self.rumble_amplitude_max {
            Some(ValidationError::RumbleAmplitudeOutOfRange)
        } else if step.duration_ms > self.rumble_duration_max_ms {
            Some(ValidationError::RumbleDurationOutOfRange)
        } else {
            None
        }
    }

    fn check_steps(&self, steps: &Vec<SimpleRumble>) -> (res: Option<ValidationError>)
        ensures
            res == self.rumble_error(steps@),
    {
        if steps.len() > self.rumble_steps_max as usize {
            return Some(ValidationError::RumblePatternTooLong);
        }
        let mut i: usize = 0;
        while i < steps.len()
            invariant
                i <= steps@.len(),
                steps@.len() <= self.rumble_steps_max,
                self.first_bad_step(steps@, 0) == self.first_bad_step(steps@, i as int),
            decreases steps@.len() - i,
        {
            let found = self.check_step(&steps[i]);
            if found.is_some() {
                return found;
            }
            i += 1;
        }
        None
    }

    fn check_memory(&self, address: u32, length: usize, guarded: bool) -> (res: Option<
        ValidationError,
    >)
        ensures
            res == self.memory_error(address, length as int, guarded),
    {
        if length > self.max_payload as usize {
            return Some(ValidationError::PayloadTooLong);
        }
        let first: u64 = address as u64;
        let past: u64 = first + length as u64;
        if address < self.memory_start || past > self.memory_end as u64 {
            Some(ValidationError::AddressOutOfWindow)
        } else if guarded && length > 0 && address < self.reserved_end && past
            > self.reserved_start as u64 {
            Some(ValidationError::ReservedAddress)
        } else {
            None
        }
    }

    /// Checks every parameter of the action against the limits.
    ///
    /// Succeeds exactly when all of them are within bounds; otherwise names
    /// the first limit that is broken.
    pub fn validate(&self, action: &Action) -> (res: Result<(), ValidationError>)
        ensures
            res == self.validation_result(action@),
            res.is_ok() <==> self.within_bounds(action@),
    {
        proof {
            self.lemma_valid_iff_within_bounds(action@);
        }
        let found = match &action.kind {
            ActionKind::Rumble(RumblePattern::Simple(step)) => {
                assert(seq![*step][0] == *step);
                let found = self.check_step(step);
                if self.rumble_steps_max == 0 {
                    Some(ValidationError::RumblePatternTooLong)
                } else {
                    found
                }
            },
            ActionKind::Rumble(RumblePattern::Complex(steps)) => self.check_steps(steps),
            ActionKind::SetPlayerLed { mask } => {
                if self.player_led_bits >= 8 || (*mask as u16) < (1u16 << (
                self.player_led_bits as u16)) {
                    None
                } else {
                    Some(ValidationError::LedMaskOutOfRange)
                }
            },
            ActionKind::SetHomeLed { pattern } => {
                if pattern.intensity <= self.home_led_intensity_max {
                    None
                } else {
                    Some(ValidationError::HomeLedOutOfRange)
                }
            },
            ActionKind::ReadMemory { address, length } => self.check_memory(
                *address,
                *length as usize,
                false,
            ),
            ActionKind::WriteMemory { address, bytes, unsafe_override } => self.check_memory(
                *address,
                bytes.len(),
                !*unsafe_override,
            ),
            ActionKind::QueryBattery => None,
        };
        match found {
            None => Ok(()),
            Some(e) => Err(e),
        }
    }
}

/// Checks an action against the limits of a device.
pub fn validate(action: &Action, caps: &DeviceCapabilities) -> (res: Result<(), ValidationError>)
    ensures
        res == caps.validation_result(action@),
        res.is_ok() <==> caps.within_bounds(action@),
{
    caps.validate(action)
}

} // verus!
