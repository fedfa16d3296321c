//! Input reports: what a device tells the host, once a frame is decoded.

use vstd::prelude::*;
use crate::joycon::model::{copy_bytes, CorrelationId};

verus! {

/// A decoded input frame.
#[derive(Debug, Clone, PartialEq, Eq)]
pub enum InputReport {
    /// Buttons as a bit field, and the raw position of both sticks.
    ButtonStickState { buttons: u32, left_x: u16, left_y: u16, right_x: u16, right_y: u16 },
    /// One raw sample of the accelerometer and of the gyroscope.
    IMUFrame { accel_x: u16, accel_y: u16, accel_z: u16, gyro_x: u16, gyro_y: u16, gyro_z: u16 },
    /// The device's answer to a subcommand, with the data it returned.
    SubcommandAck { correlation: CorrelationId, subcommand: u8, accepted: bool, data: Vec<u8> },
    /// The device's answer to a battery query.
    BatteryVoltage { correlation: CorrelationId, voltage_mv: u16, charging: bool },
}

/// What an [`InputReport`] stands for.
pub enum InputReportView {
    ButtonStickState { buttons: u32, left_x: u16, left_y: u16, right_x: u16, right_y: u16 },
    IMUFrame { accel_x: u16, accel_y: u16, accel_z: u16, gyro_x: u16, gyro_y: u16, gyro_z: u16 },
    SubcommandAck { correlation: CorrelationId, subcommand: u8, accepted: bool, data: Seq<u8> },
    BatteryVoltage { correlation: CorrelationId, voltage_mv: u16, charging: bool },
}

impl View for InputReport {
    type V = InputReportView;

    open spec fn view(&self) -> InputReportView {
        match *self {
            InputReport::ButtonStickState { buttons, left_x, left_y, right_x, right_y } =>
                InputReportView::ButtonStickState { buttons, left_x, left_y, right_x, right_y },
            InputReport::IMUFrame { accel_x, accel_y, accel_z, gyro_x, gyro_y, gyro_z } =>
                InputReportView::IMUFrame { accel_x, accel_y, accel_z, gyro_x, gyro_y, gyro_z },
            InputReport::SubcommandAck { correlation, subcommand, accepted, data } =>
                InputReportView::SubcommandAck { correlation, subcommand, accepted, data: data@ },
            InputReport::BatteryVoltage { correlation, voltage_mv, charging } =>
                InputReportView::BatteryVoltage { correlation, voltage_mv, charging },
        }
    }
}

impl InputReportView {
    /// The report id under which a report of this kind travels.
    pub open spec fn report_id(self) -> u8 {
        match self {
            InputReportView::ButtonStickState { .. } => REPORT_BUTTON_STICK,
            InputReportView::IMUFrame { .. } => REPORT_IMU,
            InputReportView::SubcommandAck { .. } => REPORT_SUBCOMMAND_ACK,
            InputReportView::BatteryVoltage { .. } => REPORT_BATTERY,
        }
    }

    /// The correlation id that the report answers, if it answers one.
    pub open spec fn correlation(self) -> Option<CorrelationId> {
        match self {
            InputReportView::SubcommandAck { correlation, .. } => Some(correlation),
            InputReportView::BatteryVoltage { correlation, .. } => Some(correlation),
            _ => None,
        }
    }
}

/// Report id of a subcommand acknowledgement.
pub const REPORT_SUBCOMMAND_ACK: u8 = 0x21;

/// Report id of a battery reading.
pub const REPORT_BATTERY: u8 = 0x23;

/// Report id of an inertial sample.
pub const REPORT_IMU: u8 = 0x30;

/// Report id of a button and stick state.
pub const REPORT_BUTTON_STICK: u8 = 0x3F;

impl InputReport {
    /// The report id under which this report travels.
    pub fn report_id(&self) -> (id: u8)
        ensures
            id == self@.report_id(),
    {
        match self {
            InputReport::ButtonStickState { .. } => REPORT_BUTTON_STICK,
            InputReport::IMUFrame { .. } => REPORT_IMU,
            InputReport::SubcommandAck { .. } => REPORT_SUBCOMMAND_ACK,
            InputReport::BatteryVoltage { .. } => REPORT_BATTERY,
        }
    }

    /// The correlation id that this report answers, if it answers one.
    pub fn correlation(&self) -> (id: Option<CorrelationId>)
        ensures
            id == self@.correlation(),
    {
        match self {
            InputReport::SubcommandAck { correlation, .. } => Some(*correlation),
            InputReport::BatteryVoltage { correlation, .. } => Some(*correlation),
            _ => None,
        }
    }

    /// An independent copy of the report.
    pub fn duplicate(&self) -> (copy: InputReport)
        ensures
            copy@ == self@,
    {
        match self {
            InputReport::ButtonStickState { buttons, left_x, left_y, right_x, right_y } =>
                InputReport::ButtonStickState {
                    buttons: *buttons,
                    left_x: *left_x,
                    left_y: *left_y,
                    right_x: *right_x,
                    right_y: *right_y,
                },
            InputReport::IMUFrame { accel_x, accel_y, accel_z, gyro_x, gyro_y, gyro_z } =>
                InputReport::IMUFrame {
                    accel_x: *accel_x,
                    accel_y: *accel_y,
                    accel_z: *accel_z,
                    gyro_x: *gyro_x,
                    gyro_y: *gyro_y,
                    gyro_z: *gyro_z,
                },
            InputReport::SubcommandAck { correlation, subcommand, accepted, data } =>
                InputReport::SubcommandAck {
                    correlation: *correlation,
                    subcommand: *subcommand,
                    accepted: *accepted,
                    data: copy_bytes(data),
                },
            InputReport::BatteryVoltage { correlation, voltage_mv, charging } =>
                InputReport::BatteryVoltage {
                    correlation: *correlation,
                    voltage_mv: *voltage_mv,
                    charging: *charging,
                },
        }
    }
}

/// Why a frame could not be decoded.
#[derive(Debug, Clone, Copy, PartialEq, Eq)]
pub enum DecodeError {
    /// The frame's first byte is no report id that the codec knows.
    UnknownReportId,
    /// The frame ends before the payload that its kind calls for.
    TruncatedFrame,
}

} // verus!
