pub mod action;
pub mod calibration;
pub mod codec;
pub mod engine;
pub mod error;
pub mod input;
pub mod manager;
pub mod model;
pub mod output;
pub mod pending;
pub mod report;
pub mod validator;

pub use action::{Action, ActionKind, ActionRequest, HomeLedPattern, RumblePattern, SimpleRumble};
pub use calibration::{Axis, AxisCalibration, CalibrationProfile};
pub use codec::{decode, decode_action, encode, EncodedFrame};
pub use engine::Joycon;
pub use error::{JoyconError, JoyconResult, ReadError};
pub use input::{FrameOutcome, HandlerStatus, InputHandlerThread};
pub use manager::{DiscoveryReport, JoyconManager};
pub use model::{BatteryInfo, CorrelationId, DeviceIdentity, DeviceState};
pub use output::{OutputDispatcher, OutputStep};
pub use pending::Reply;
pub use report::{DecodeError, InputReport};
pub use validator::{validate, DeviceCapabilities, ValidationError};
