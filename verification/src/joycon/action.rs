//! Actions: what the host asks of a device, before encoding.

use vstd::prelude::*;
use crate::joycon::model::{copy_bytes, CorrelationId, DeviceIdentity, DeviceIdentityView};

verus! {

/// One rumble step: two frequencies, an amplitude and how long it lasts.
#[derive(Debug, Clone, Copy, PartialEq, Eq)]
pub struct SimpleRumble {
    pub freq_low: u16,
    pub freq_high: u16,
    pub amplitude: u8,
    pub duration_ms: u16,
}

/// A rumble, either one step or an envelope of steps played back to back.
#[derive(Debug, Clone, PartialEq, Eq)]
pub enum RumblePattern {
    Simple(SimpleRumble),
    Complex(Vec<SimpleRumble>),
}

/// What a [`RumblePattern`] stands for.
pub enum RumblePatternView {
    Simple(SimpleRumble),
    Complex(Seq<SimpleRumble>),
}

impl View for RumblePattern {
    type V = RumblePatternView;

    open spec fn view(&self) -> RumblePatternView {
        match *self {
            RumblePattern::Simple(step) => RumblePatternView::Simple(step),
            RumblePattern::Complex(steps) => RumblePatternView::Complex(steps@),
        }
    }
}

impl RumblePatternView {
    /// The steps in playing order.
    pub open spec fn steps(self) -> Seq<SimpleRumble> {
        match self {
            RumblePatternView::Simple(step) => seq![step],
            RumblePatternView::Complex(steps) => steps,
        }
    }
}

/// How the home button's light behaves.
#[derive(Debug, Clone, Copy, PartialEq, Eq)]
pub struct HomeLedPattern {
    pub intensity: u8,
    pub fade_ms: u16,
    pub repeat: u8,
}

/// The kinds of action, each with its parameters.
#[derive(Debug, Clone, PartialEq, Eq)]
pub enum ActionKind {
    Rumble(RumblePattern),
    SetPlayerLed { mask: u8 },
    SetHomeLed { pattern: HomeLedPattern },
    ReadMemory { address: u32, length: u8 },
    /// `unsafe_override` lets the write reach a reserved range.
    WriteMemory { address: u32, bytes: Vec<u8>, unsafe_override: bool },
    QueryBattery,
}

/// What an [`ActionKind`] stands for.
pub enum ActionKindView {
    Rumble(RumblePatternView),
    SetPlayerLed { mask: u8 },
    SetHomeLed { pattern: HomeLedPattern },
    ReadMemory { address: u32, length: u8 },
    WriteMemory { address: u32, bytes: Seq<u8>, unsafe_override: bool },
    QueryBattery,
}

impl View for ActionKind {
    type V = ActionKindView;

    open spec fn view(&self) -> ActionKindView {
        match *self {
            ActionKind::Rumble(pattern) => ActionKindView::Rumble(pattern@),
            ActionKind::SetPlayerLed { mask } => ActionKindView::SetPlayerLed { mask },
            ActionKind::SetHomeLed { pattern } => ActionKindView::SetHomeLed { pattern },
            ActionKind::ReadMemory { address, length } => ActionKindView::ReadMemory {
                address,
                length,
            },
            ActionKind::WriteMemory { address, bytes, unsafe_override } =>
                ActionKindView::WriteMemory { address, bytes: bytes@, unsafe_override },
            ActionKind::QueryBattery => ActionKindView::QueryBattery,
        }
    }
}

/// An outbound intent with the correlation id that its reply will carry.
#[derive(Debug, Clone, PartialEq, Eq)]
pub struct Action {
    pub correlation: CorrelationId,
    pub kind: ActionKind,
}

/// What an [`Action`] stands for.
pub struct ActionView {
    pub correlation: CorrelationId,
    pub kind: ActionKindView,
}

impl View for Action {
    type V = ActionView;

    open spec fn view(&self) -> ActionView {
        ActionView { correlation: self.correlation, kind: self.kind@ }
    }
}

/// Copies a sequence of rumble steps.
pub fn copy_steps(src: &Vec<SimpleRumble>) -> (out: Vec<SimpleRumble>)
    ensures
        out@ == src@,
{
    let mut out: Vec<SimpleRumble> = Vec::new();
    let mut i: usize = 0;
    while i < src.len()
        invariant
            i <= src@.len(),
            out@ == src@.subrange(0, i as int),
        decreases src@.len() - i,
    {
        out.push(src[i]);
        i += 1;
        assert(out@ =~= src@.subrange(0, i as int));
    }
    assert(src@.subrange(0, src@.len() as int) =~= src@);
    out
}

impl Action {
    pub fn new(correlation: CorrelationId, kind: ActionKind) -> (action: Action)
        ensures
            action@ == (ActionView { correlation, kind: kind@ }),
    {
        Action { correlation, kind }
    }

    /// An independent copy of the action.
    pub fn duplicate(&self) -> (copy: Action)
        ensures
            copy@ == self@,
    {
        let kind = match &self.kind {
            ActionKind::Rumble(RumblePattern::Simple(step)) => ActionKind::Rumble(
                RumblePattern::Simple(*step),
            ),
            ActionKind::Rumble(RumblePattern::Complex(steps)) => ActionKind::Rumble(
                RumblePattern::Complex(copy_steps(steps)),
            ),
            ActionKind::SetPlayerLed { mask } => ActionKind::SetPlayerLed { mask: *mask },
            ActionKind::SetHomeLed { pattern } => ActionKind::SetHomeLed { pattern: *pattern },
            ActionKind::ReadMemory { address, length } => ActionKind::ReadMemory {
                address: *address,
                length: *length,
            },
            ActionKind::WriteMemory { address, bytes, unsafe_override } => ActionKind::WriteMemory {
                address: *address,
                bytes: copy_bytes(bytes),
                unsafe_override: *unsafe_override,
            },
            ActionKind::QueryBattery => ActionKind::QueryBattery,
        };
        Action { correlation: self.correlation, kind }
    }
}

/// An action on its way to one device, stamped when it was enqueued.
#[derive(Debug, Clone, PartialEq, Eq)]
pub struct ActionRequest {
    pub action: Action,
    pub target: DeviceIdentity,
    pub enqueued_at: u64,
}

/// What an [`ActionRequest`] stands for.
pub struct ActionRequestView {
    pub action: ActionView,
    pub target: DeviceIdentityView,
    pub enqueued_at: u64,
}

impl View for ActionRequest {
    type V = ActionRequestView;

    open spec fn view(&self) -> ActionRequestView {
        ActionRequestView {
            action: self.action@,
            target: self.target@,
            enqueued_at: self.enqueued_at,
        }
    }
}

} // verus!
