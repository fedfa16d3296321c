//! Calibration profiles: a centre and a scale for every stick and inertial
//! axis. A profile never changes; an override produces a new profile.

use vstd::prelude::*;

verus! {

/// Number of calibrated axes.
pub const AXIS_COUNT: usize = 10;

/// Number of bytes that a factory calibration page holds.
pub const FACTORY_PAGE_LEN: usize = 40;

/// An axis that a profile calibrates.
#[derive(Debug, Clone, Copy, PartialEq, Eq)]
pub enum Axis {
    LeftStickX,
    LeftStickY,
    RightStickX,
    RightStickY,
    AccelX,
    AccelY,
    AccelZ,
    GyroX,
    GyroY,
    GyroZ,
}

impl Axis {
    /// Position of the axis in a profile and in a factory page.
    pub open spec fn index(self) -> int {
        match self {
            Axis::LeftStickX => 0,
            Axis::LeftStickY => 1,
            Axis::RightStickX => 2,
            Axis::RightStickY => 3,
            Axis::AccelX => 4,
            Axis::AccelY => 5,
            Axis::AccelZ => 6,
            Axis::GyroX => 7,
            Axis::GyroY => 8,
            Axis::GyroZ => 9,
        }
    }

    fn position(&self) -> (i: usize)
        ensures
            i == self.index(),
            i < AXIS_COUNT,
    {
        match self {
            Axis::LeftStickX => 0,
            Axis::LeftStickY => 1,
            Axis::RightStickX => 2,
            Axis::RightStickY => 3,
            Axis::AccelX => 4,
            Axis::AccelY => 5,
            Axis::AccelZ => 6,
            Axis::GyroX => 7,
            Axis::GyroY => 8,
            Axis::GyroZ => 9,
        }
    }
}

/// Where an axis rests and by how much its deflection is multiplied.
#[derive(Debug, Clone, Copy, PartialEq, Eq)]
pub struct AxisCalibration {
    pub offset: u16,
    pub scale: u16,
}

impl AxisCalibration {
    /// The calibrated value of a raw reading: its distance from the resting
    /// point, times the scale.
    pub open spec fn calibrated(self, raw: u16) -> int {
        (raw - self.offset) * self.scale
    }

    /// Calibrates a raw reading.
    pub fn apply(&self, raw: u16) -> (value: i64)
        ensures
            value == self.calibrated(raw),
    {
        let deflection: i64 = raw as i64 - self.offset as i64;
        let scale: i64 = self.scale as i64;
        assert(-4295000000 <= deflection * scale <= 4295000000) by (nonlinear_arith)
            requires
                -65535 <= deflection <= 65535,
                0 <= scale <= 65535,
        ;
        deflection * scale
    }
}

/// The calibration of every axis of one device.
#[derive(Debug, Clone, Copy, PartialEq, Eq)]
pub struct CalibrationProfile {
    axes: [AxisCalibration; 10],
}

/// The calibration that a factory page holds for the axis at `index`: two
/// bytes of offset, then two bytes of scale, least significant byte first.
pub open spec fn factory_axis(page: Seq<u8>, index: int) -> AxisCalibration {
    AxisCalibration {
        offset: (page[4 * index] + page[4 * index + 1] * 256) as u16,
        scale: (page[4 * index + 2] + page[4 * index + 3] * 256) as u16,
    }
}

impl CalibrationProfile {
    /// The calibration of one axis.
    pub closed spec fn axis(self, axis: Axis) -> AxisCalibration {
        self.axes@[axis.index()]
    }

    /// The profile that leaves every raw reading as it is.
    pub fn neutral() -> (profile: CalibrationProfile)
        ensures
            forall|axis: Axis|
                #[trigger] profile.axis(axis) == (AxisCalibration { offset: 0, scale: 1 }),
    {
        CalibrationProfile { axes: [AxisCalibration { offset: 0, scale: 1 };10] }
    }

    /// Reads a profile from a factory calibration page.
    ///
    /// Succeeds exactly when the page holds all axes.
    pub fn from_factory_page(page: &[u8]) -> (res: Option<CalibrationProfile>)
        ensures
            res.is_some() <==> page@.len() >= FACTORY_PAGE_LEN,
            res.is_some() ==> forall|axis: Axis|
                #[trigger] res.unwrap().axis(axis) == factory_axis(page@, axis.index()),
    {
        if page.len() < FACTORY_PAGE_LEN {
            return None;
        }
        let mut axes: [AxisCalibration; 10] = [AxisCalibration { offset: 0, scale: 1 };10];
        let mut i: usize = 0;
        while i < AXIS_COUNT
            invariant
                i <= AXIS_COUNT,
                page@.len() >= FACTORY_PAGE_LEN,
                forall|k: int| 0 <= k < i ==> #[trigger] axes@[k] == factory_axis(page@, k),
            decreases AXIS_COUNT - i,
        {
            let offset: u16 = page[4 * i] as u16 + page[4 * i + 1] as u16 * 256;
            let scale: u16 = page[4 * i + 2] as u16 + page[4 * i + 3] as u16 * 256;
            axes.set(i, AxisCalibration { offset, scale });
            i += 1;
        }
        Some(CalibrationProfile { axes })
    }

    /// A new profile that differs from this one in one axis.
    pub fn with_override(&self, axis: Axis, calibration: AxisCalibration) -> (profile:
        CalibrationProfile)
        ensures
            profile.axis(axis) == calibration,
            forall|other: Axis|
                other != axis ==> #[trigger] profile.axis(other) == self.axis(other),
    {
        let mut axes: [AxisCalibration; 10] = self.axes;
        axes.set(axis.position(), calibration);
        CalibrationProfile { axes }
    }

    /// The calibration of one axis.
    pub fn get(&self, axis: Axis) -> (calibration: AxisCalibration)
        ensures
            calibration == self.axis(axis),
    {
        self.axes[axis.position()]
    }

    /// Calibrates a raw reading of one axis.
    pub fn apply(&self, axis: Axis, raw: u16) -> (value: i64)
        ensures
            value == self.axis(axis).calibrated(raw),
    {
        self.get(axis).apply(raw)
    }
}

} // verus!
