//! The frame codec: stateless functions from raw frames to input reports and
//! from actions to raw frames, with the layout of every frame stated as a
//! function on byte sequences.
//!
//! Integers wider than a byte travel least significant byte first.

use vstd::prelude::*;
use crate::joycon::action::{
    Action, ActionKind, ActionKindView, ActionView, HomeLedPattern, RumblePattern,
    RumblePatternView, SimpleRumble,
};
use crate::joycon::model::{MAX_FRAME_LEN, MAX_RUMBLE_STEPS, MAX_WRITE_PAYLOAD};
use crate::joycon::report::{
    DecodeError, InputReport, InputReportView, REPORT_BATTERY, REPORT_BUTTON_STICK, REPORT_IMU,
    REPORT_SUBCOMMAND_ACK,
};

verus! {

/// Report id of a frame that carries a subcommand.
pub const REPORT_SUBCOMMAND: u8 = 0x01;

/// Report id of a frame that carries a rumble.
pub const REPORT_RUMBLE: u8 = 0x10;

/// Subcommand id: read memory.
pub const SUB_READ_MEMORY: u8 = 0x10;

/// Subcommand id: write memory.
pub const SUB_WRITE_MEMORY: u8 = 0x11;

/// Subcommand id: set the player lights.
pub const SUB_PLAYER_LED: u8 = 0x30;

/// Subcommand id: set the home light.
pub const SUB_HOME_LED: u8 = 0x38;

/// Subcommand id: query the battery.
pub const SUB_BATTERY: u8 = 0x50;

/// The two bytes of a 16-bit value.
pub open spec fn u16_bytes(v: u16) -> Seq<u8> {
    seq![(v % 256) as u8, (v / 256) as u8]
}

/// The 16-bit value whose bytes start at `i`.
pub open spec fn u16_at(f: Seq<u8>, i: int) -> u16 {
    (f[i] + f[i + 1] * 256) as u16
}

/// The four bytes of a 32-bit value.
pub open spec fn u32_bytes(v: u32) -> Seq<u8> {
    seq![
        (v % 256) as u8,
        (v / 256 % 256) as u8,
        (v / 65536 % 256) as u8,
        (v / 16777216) as u8,
    ]
}

/// The 32-bit value whose bytes start at `i`.
pub open spec fn u32_at(f: Seq<u8>, i: int) -> u32 {
    (f[i] + f[i + 1] * 256 + f[i + 2] * 65536 + f[i + 3] * 16777216) as u32
}

/// The seven bytes of a rumble step.
pub open spec fn step_bytes(step: SimpleRumble) -> Seq<u8> {
    u16_bytes(step.freq_low) + u16_bytes(step.freq_high) + seq![step.amplitude] + u16_bytes(
        step.duration_ms,
    )
}

/// The rumble step whose bytes start at `i`.
pub open spec fn step_at(f: Seq<u8>, i: int) -> SimpleRumble {
    SimpleRumble {
        freq_low: u16_at(f, i),
        freq_high: u16_at(f, i + 2),
        amplitude: f[i + 4],
        duration_ms: u16_at(f, i + 5),
    }
}

/// The bytes of a run of rumble steps, one step after the other.
pub open spec fn steps_bytes(steps: Seq<SimpleRumble>) -> Seq<u8> {
    Seq::new((7 * steps.len()) as nat, |i: int| step_bytes(steps[i / 7])[i % 7])
}

/// The `count` rumble steps whose bytes start at `start`.
pub open spec fn steps_at(f: Seq<u8>, start: int, count: nat) -> Seq<SimpleRumble> {
    Seq::new(count, |k: int| step_at(f, start + 7 * k))
}

/// The action is small enough for one frame.
pub open spec fn fits_frame(action: ActionView) -> bool {
    match action.kind {
        ActionKindView::Rumble(RumblePatternView::Complex(steps)) => steps.len()
            <= MAX_RUMBLE_STEPS,
        ActionKindView::WriteMemory { bytes, .. } => bytes.len() <= MAX_WRITE_PAYLOAD,
        _ => true,
    }
}

/// The frame that carries an action.
///
/// A rumble travels under its own report id, as one step or as a counted run
/// of steps; every other action travels as a subcommand. The second byte is
/// always the correlation id.
pub open spec fn encode_spec(action: ActionView) -> Seq<u8> {
    match action.kind {
        ActionKindView::Rumble(RumblePatternView::Simple(step)) => seq![
            REPORT_RUMBLE,
            action.correlation,
            0u8,
        ] + step_bytes(step),
        ActionKindView::Rumble(RumblePatternView::Complex(steps)) => seq![
            REPORT_RUMBLE,
            action.correlation,
            1u8,
            steps.len() as u8,
        ] + steps_bytes(steps),
        ActionKindView::SetPlayerLed { mask } => seq![
            REPORT_SUBCOMMAND,
            action.correlation,
            SUB_PLAYER_LED,
            mask,
        ],
        ActionKindView::SetHomeLed { pattern } => seq![
            REPORT_SUBCOMMAND,
            action.correlation,
            SUB_HOME_LED,
            pattern.intensity,
            pattern.repeat,
        ] + u16_bytes(pattern.fade_ms),
        ActionKindView::ReadMemory { address, length } => seq![
            REPORT_SUBCOMMAND,
            action.correlation,
            SUB_READ_MEMORY,
        ] + u32_bytes(address) + seq![length],
        ActionKindView::WriteMemory { address, bytes, unsafe_override } => seq![
            REPORT_SUBCOMMAND,
            action.correlation,
            SUB_WRITE_MEMORY,
        ] + u32_bytes(address) + seq![if unsafe_override { 1u8 } else { 0u8 }, bytes.len() as u8]
            + bytes,
        ActionKindView::QueryBattery => seq![REPORT_SUBCOMMAND, action.correlation, SUB_BATTERY],
    }
}

/// The action that a rumble frame carries.
pub open spec fn decode_rumble_spec(f: Seq<u8>) -> Result<ActionView, DecodeError> {
    if f.len() < 3 {
        Err(DecodeError::TruncatedFrame)
    } else if f[2] == 0 {
        if f.len() < 10 {
            Err(DecodeError::TruncatedFrame)
        } else {
            Ok(
                ActionView {
                    correlation: f[1],
                    kind: ActionKindView::Rumble(RumblePatternView::Simple(step_at(f, 3))),
                },
            )
        }
    } else if f[2] == 1 {
        if f.len() < 4 || f.len() < 4 + 7 * f[3] {
            Err(DecodeError::TruncatedFrame)
        } else {
            Ok(
                ActionView {
                    correlation: f[1],
                    kind: ActionKindView::Rumble(
                        RumblePatternView::Complex(steps_at(f, 4, f[3] as nat)),
                    ),
                },
            )
        }
    } else {
        Err(DecodeError::UnknownReportId)
    }
}

/// The action that a subcommand frame carries.
pub open spec fn decode_subcommand_spec(f: Seq<u8>) -> Result<ActionView, DecodeError> {
    if f.len() < 3 {
        Err(DecodeError::TruncatedFrame)
    } else if f[2] == SUB_PLAYER_LED {
        if f.len() < 4 {
            Err(DecodeError::TruncatedFrame)
        } else {
            Ok(ActionView { correlation: f[1], kind: ActionKindView::SetPlayerLed { mask: f[3] } })
        }
    } else if f[2] == SUB_HOME_LED {
        if f.len() < 7 {
            Err(DecodeError::TruncatedFrame)
        } else {
            Ok(
                ActionView {
                    correlation: f[1],
                    kind: ActionKindView::SetHomeLed {
                        pattern: HomeLedPattern {
                            intensity: f[3],
                            fade_ms: u16_at(f, 5),
                            repeat: f[4],
                        },
                    },
                },
            )
        }
    } else if f[2] == SUB_READ_MEMORY {
        if f.len() < 8 {
            Err(DecodeError::TruncatedFrame)
        } else {
            Ok(
                ActionView {
                    correlation: f[1],
                    kind: ActionKindView::ReadMemory { address: u32_at(f, 3), length: f[7] },
                },
            )
        }
    } else if f[2] == SUB_WRITE_MEMORY {
        if f.len() < 9 || f.len() < 9 + f[8] {
            Err(DecodeError::TruncatedFrame)
        } else {
            Ok(
                ActionView {
                    correlation: f[1],
                    kind: ActionKindView::WriteMemory {
                        address: u32_at(f, 3),
                        bytes: f.subrange(9, 9 + f[8]),
                        unsafe_override: f[7] != 0,
                    },
                },
            )
        }
    } else if f[2] == SUB_BATTERY {
        Ok(ActionView { correlation: f[1], kind: ActionKindView::QueryBattery })
    } else {
        Err(DecodeError::UnknownReportId)
    }
}

/// The action that an outbound frame carries.
///
/// Bytes past the end of the action are ignored. A frame that starts with
/// neither outbound report id, or names no known subcommand or rumble form,
/// has an unknown id; a known one that ends too early is truncated.
pub open spec fn decode_action_spec(f: Seq<u8>) -> Result<ActionView, DecodeError> {
    if f.len() == 0 {
        Err(DecodeError::TruncatedFrame)
    } else if f[0] == REPORT_RUMBLE {
        decode_rumble_spec(f)
    } else if f[0] == REPORT_SUBCOMMAND {
        decode_subcommand_spec(f)
    } else {
        Err(DecodeError::UnknownReportId)
    }
}

/// How long the frame of an action is.
pub proof fn lemma_encode_len(action: ActionView)
    requires
        fits_frame(action),
    ensures
        3 <= encode_spec(action).len() <= MAX_FRAME_LEN,
{
}

proof fn lemma_u16_at(f: Seq<u8>, i: int, v: u16)
    requires
        0 <= i,
        i + 2 <= f.len(),
        f.subrange(i, i + 2) == u16_bytes(v),
    ensures
        u16_at(f, i) == v,
{
    let part = f.subrange(i, i + 2);
    assert(f[i] == part[0]);
    assert(f[i + 1] == part[1]);
}

proof fn lemma_u32_at(f: Seq<u8>, i: int, v: u32)
    requires
        0 <= i,
        i + 4 <= f.len(),
        f.subrange(i, i + 4) == u32_bytes(v),
    ensures
        u32_at(f, i) == v,
{
    let part = f.subrange(i, i + 4);
    assert(f[i] == part[0]);
    assert(f[i + 1] == part[1]);
    assert(f[i + 2] == part[2]);
    assert(f[i + 3] == part[3]);
}

proof fn lemma_step_at(f: Seq<u8>, i: int, step: SimpleRumble)
    requires
        0 <= i,
        i + 7 <= f.len(),
        f.subrange(i, i + 7) == step_bytes(step),
    ensures
        step_at(f, i) == step,
{
    let part = f.subrange(i, i + 7);
    assert(f.subrange(i, i + 2) =~= u16_bytes(step.freq_low)) by {
        assert(f[i] == part[0]);
        assert(f[i + 1] == part[1]);
    }
    assert(f.subrange(i + 2, i + 4) =~= u16_bytes(step.freq_high)) by {
        assert(f[i + 2] == part[2]);
        assert(f[i + 3] == part[3]);
    }
    assert(f[i + 4] == part[4]);
    assert(f.subrange(i + 5, i + 7) =~= u16_bytes(step.duration_ms)) by {
        assert(f[i + 5] == part[5]);
        assert(f[i + 6] == part[6]);
    }
    lemma_u16_at(f, i, step.freq_low);
    lemma_u16_at(f, i + 2, step.freq_high);
    lemma_u16_at(f, i + 5, step.duration_ms);
}

proof fn lemma_round_trip_rumble(action: ActionView)
    requires
        fits_frame(action),
        action.kind is Rumble,
    ensures
        decode_action_spec(encode_spec(action)) == Ok::<ActionView, DecodeError>(action),
{
    let f = encode_spec(action);
    match action.kind {
        ActionKindView::Rumble(RumblePatternView::Simple(step)) => {
            assert(f.subrange(3, 10) =~= step_bytes(step));
            lemma_step_at(f, 3, step);
        },
        ActionKindView::Rumble(RumblePatternView::Complex(steps)) => {
            assert(f.len() == 4 + 7 * steps.len());
            assert forall|k: int| 0 <= k < steps.len() implies step_at(f, 4 + 7 * k)
                == steps[k] by {
                assert(f.subrange(4 + 7 * k, 4 + 7 * k + 7) =~= step_bytes(steps[k])) by {
                    assert forall|j: int| 0 <= j < 7 implies f[4 + 7 * k + j] == step_bytes(
                        steps[k],
                    )[j] by {
                        assert((7 * k + j) / 7 == k);
                        assert((7 * k + j) % 7 == j);
                        assert(f[4 + 7 * k + j] == steps_bytes(steps)[7 * k + j]);
                    }
                }
                lemma_step_at(f, 4 + 7 * k, steps[k]);
            }
            assert(steps_at(f, 4, f[3] as nat) =~= steps);
        },
        _ => {},
    }
}

proof fn lemma_round_trip_memory(action: ActionView)
    requires
        fits_frame(action),
        action.kind is ReadMemory || action.kind is WriteMemory,
    ensures
        decode_action_spec(encode_spec(action)) == Ok::<ActionView, DecodeError>(action),
{
    let f = encode_spec(action);
    match action.kind {
        ActionKindView::ReadMemory { address, length } => {
            assert(f.subrange(3, 7) =~= u32_bytes(address));
            lemma_u32_at(f, 3, address);
        },
        ActionKindView::WriteMemory { address, bytes, unsafe_override } => {
            assert(f.subrange(3, 7) =~= u32_bytes(address));
            lemma_u32_at(f, 3, address);
            assert(f[8] == bytes.len());
            assert(f.subrange(9, 9 + f[8]) =~= bytes);
        },
        _ => {},
    }
}

/// Decoding the frame of an action gives the action back, whatever its kind.
pub proof fn lemma_round_trip(action: ActionView)
    requires
        fits_frame(action),
    ensures
        decode_action_spec(encode_spec(action)) == Ok::<ActionView, DecodeError>(action),
{
    let f = encode_spec(action);
    match action.kind {
        ActionKindView::Rumble(_) => {
            lemma_round_trip_rumble(action);
        },
        ActionKindView::SetPlayerLed { mask } => {},
        ActionKindView::SetHomeLed { pattern } => {
            assert(f.subrange(5, 7) =~= u16_bytes(pattern.fade_ms));
            lemma_u16_at(f, 5, pattern.fade_ms);
        },
        ActionKindView::ReadMemory { .. } => {
            lemma_round_trip_memory(action);
        },
        ActionKindView::WriteMemory { .. } => {
            lemma_round_trip_memory(action);
        },
        ActionKindView::QueryBattery => {},
    }
}

/// An action laid out as the bytes of one frame.
#[derive(Debug, Clone, PartialEq, Eq)]
pub struct EncodedFrame {
    pub bytes: Vec<u8>,
}

impl View for EncodedFrame {
    type V = Seq<u8>;

    open spec fn view(&self) -> Seq<u8> {
        self.bytes@
    }
}

fn push_u16(out: &mut Vec<u8>, v: u16)
    ensures
        final(out)@ == old(out)@ + u16_bytes(v),
{
    out.push((v % 256) as u8);
    out.push((v / 256) as u8);
    assert(out@ =~= old(out)@ + u16_bytes(v));
}

fn push_u32(out: &mut Vec<u8>, v: u32)
    ensures
        final(out)@ == old(out)@ + u32_bytes(v),
{
    out.push((v % 256) as u8);
    out.push((v / 256 % 256) as u8);
    out.push((v / 65536 % 256) as u8);
    out.push((v / 16777216) as u8);
    assert(out@ =~= old(out)@ + u32_bytes(v));
}

fn push_step(out: &mut Vec<u8>, step: &SimpleRumble)
    ensures
        final(out)@ == old(out)@ + step_bytes(*step),
{
    push_u16(out, step.freq_low);
    push_u16(out, step.freq_high);
    out.push(step.amplitude);
    push_u16(out, step.duration_ms);
    assert(out@ =~= old(out)@ + step_bytes(*step));
}

fn push_all(out: &mut Vec<u8>, bytes: &Vec<u8>)
    ensures
        final(out)@ == old(out)@ + bytes@,
{
    let mut i: usize = 0;
    while i < bytes.len()
        invariant
            i <= bytes@.len(),
            out@ == old(out)@ + bytes@.subrange(0, i as int),
        decreases bytes@.len() - i,
    {
        out.push(bytes[i]);
        i += 1;
        assert(out@ =~= old(out)@ + bytes@.subrange(0, i as int));
    }
    assert(bytes@.subrange(0, bytes@.len() as int) =~= bytes@);
}

fn push_steps(out: &mut Vec<u8>, steps: &Vec<SimpleRumble>)
    ensures
        final(out)@ == old(out)@ + steps_bytes(steps@),
{
    let mut i: usize = 0;
    assert(out@ =~= old(out)@ + steps_bytes(steps@.subrange(0, 0)));
    while i < steps.len()
        invariant
            i <= steps@.len(),
            out@ == old(out)@ + steps_bytes(steps@.subrange(0, i as int)),
        decreases steps@.len() - i,
    {
        push_step(out, &steps[i]);
        proof {
            let head = steps@.subrange(0, i as int);
            let next = steps@.subrange(0, i + 1);
            assert(steps_bytes(next) =~= steps_bytes(head) + step_bytes(steps@[i as int])) by {
                assert forall|j: int| 0 <= j < 7 * (i + 1) implies steps_bytes(next)[j] == (
                steps_bytes(head) + step_bytes(steps@[i as int]))[j] by {
                    if j < 7 * i {
                        assert(j / 7 < i);
                        assert(next[j / 7] == head[j / 7]);
                    } else {
                        assert(j / 7 == i);
                        assert(j % 7 == j - 7 * i);
                    }
                }
            }
            assert(out@ =~= old(out)@ + steps_bytes(next));
        }
        i += 1;
    }
    assert(steps@.subrange(0, steps@.len() as int) =~= steps@);
}

/// Lays an action out as a frame.
///
/// Only an action that fits a frame can be encoded; every action that the
/// validator accepts under well-formed limits does.
pub fn encode(action: &Action) -> (frame: EncodedFrame)
    requires
        fits_frame(action@),
    ensures
        frame@ == encode_spec(action@),
        frame@.len() <= MAX_FRAME_LEN,
{
    let mut out: Vec<u8> = Vec::new();
    match &action.kind {
        ActionKind::Rumble(RumblePattern::Simple(step)) => {
            out.push(REPORT_RUMBLE);
            out.push(action.correlation);
            out.push(0u8);
            assert(out@ =~= seq![REPORT_RUMBLE, action.correlation, 0u8]);
            push_step(&mut out, step);
        },
        ActionKind::Rumble(RumblePattern::Complex(steps)) => {
            out.push(REPORT_RUMBLE);
            out.push(action.correlation);
            out.push(1u8);
            out.push(steps.len() as u8);
            assert(out@ =~= seq![REPORT_RUMBLE, action.correlation, 1u8, steps@.len() as u8]);
            push_steps(&mut out, steps);
        },
        ActionKind::SetPlayerLed { mask } => {
            out.push(REPORT_SUBCOMMAND);
            out.push(action.correlation);
            out.push(SUB_PLAYER_LED);
            out.push(*mask);
            assert(out@ =~= encode_spec(action@));
        },
        ActionKind::SetHomeLed { pattern } => {
            out.push(REPORT_SUBCOMMAND);
            out.push(action.correlation);
            out.push(SUB_HOME_LED);
            out.push(pattern.intensity);
            out.push(pattern.repeat);
            assert(out@ =~= seq![
                REPORT_SUBCOMMAND,
                action.correlation,
                SUB_HOME_LED,
                pattern.intensity,
                pattern.repeat,
            ]);
            push_u16(&mut out, pattern.fade_ms);
        },
        ActionKind::ReadMemory { address, length } => {
            out.push(REPORT_SUBCOMMAND);
            out.push(action.correlation);
            out.push(SUB_READ_MEMORY);
            assert(out@ =~= seq![REPORT_SUBCOMMAND, action.correlation, SUB_READ_MEMORY]);
            push_u32(&mut out, *address);
            out.push(*length);
            assert(out@ =~= encode_spec(action@));
        },
        ActionKind::WriteMemory { address, bytes, unsafe_override } => {
            out.push(REPORT_SUBCOMMAND);
            out.push(action.correlation);
            out.push(SUB_WRITE_MEMORY);
            assert(out@ =~= seq![REPORT_SUBCOMMAND, action.correlation, SUB_WRITE_MEMORY]);
            push_u32(&mut out, *address);
            let ghost with_address = out@;
            let flag: u8 = if *unsafe_override {
                1
            } else {
                0
            };
            out.push(flag);
            out.push(bytes.len() as u8);
            assert(out@ =~= with_address + seq![flag, bytes@.len() as u8]);
            push_all(&mut out, bytes);
        },
        ActionKind::QueryBattery => {
            out.push(REPORT_SUBCOMMAND);
            out.push(action.correlation);
            out.push(SUB_BATTERY);
            assert(out@ =~= encode_spec(action@));
        },
    }
    proof {
        lemma_encode_len(action@);
    }
    EncodedFrame { bytes: out }
}

fn read_u16(frame: &[u8], i: usize) -> (v: u16)
    requires
        i + 1 < frame@.len(),
    ensures
        v == u16_at(frame@, i as int),
{
    frame[i] as u16 + frame[i + 1] as u16 * 256
}

fn read_u32(frame: &[u8], i: usize) -> (v: u32)
    requires
        i + 3 < frame@.len(),
    ensures
        v == u32_at(frame@, i as int),
{
    frame[i] as u32 + frame[i + 1] as u32 * 256 + frame[i + 2] as u32 * 65536 + frame[i + 3] as u32
        * 16777216
}

fn read_step(frame: &[u8], i: usize) -> (step: SimpleRumble)
    requires
        i + 6 < frame@.len(),
    ensures
        step == step_at(frame@, i as int),
{
    let len: usize = frame.len();
    SimpleRumble {
        freq_low: read_u16(frame, i),
        freq_high: read_u16(frame, i + 2),
        amplitude: frame[i + 4],
        duration_ms: read_u16(frame, i + 5),
    }
}

fn read_bytes(frame: &[u8], start: usize, count: usize) -> (out: Vec<u8>)
    requires
        start + count <= frame@.len(),
    ensures
        out@ == frame@.subrange(start as int, start + count),
{
    let mut out: Vec<u8> = Vec::new();
    let mut k: usize = 0;
    let len: usize = frame.len();
    while k < count
        invariant
            k <= count,
            start + count <= frame@.len() == len,
            out@ == frame@.subrange(start as int, start + k),
        decreases count - k,
    {
        out.push(frame[start + k]);
        k += 1;
        assert(out@ =~= frame@.subrange(start as int, start + k));
    }
    out
}

fn read_steps(frame: &[u8], start: usize, count: usize) -> (out: Vec<SimpleRumble>)
    requires
        start + 7 * count <= frame@.len(),
    ensures
        out@ == steps_at(frame@, start as int, count as nat),
{
    let mut out: Vec<SimpleRumble> = Vec::new();
    let mut k: usize = 0;
    let len: usize = frame.len();
    while k < count
        invariant
            k <= count,
            start + 7 * count <= frame@.len() == len,
            out@ == steps_at(frame@, start as int, k as nat),
        decreases count - k,
    {
        let step = read_step(frame, start + 7 * k);
        out.push(step);
        k += 1;
        assert(out@ =~= steps_at(frame@, start as int, k as nat));
    }
    out
}

/// What a decoded action, or the error in its place, stands for.
pub open spec fn action_result_view(res: Result<Action, DecodeError>) -> Result<
    ActionView,
    DecodeError,
> {
    match res {
        Ok(action) => Ok(action@),
        Err(e) => Err(e),
    }
}

fn decode_rumble(frame: &[u8]) -> (res: Result<Action, DecodeError>)
    ensures
        action_result_view(res) == decode_rumble_spec(frame@),
{
    if frame.len() < 3 {
        return Err(DecodeError::TruncatedFrame);
    }
    let form: u8 = frame[2];
    if form == 0 {
        if frame.len() < 10 {
            return Err(DecodeError::TruncatedFrame);
        }
        let step = read_step(frame, 3);
        Ok(Action { correlation: frame[1], kind: ActionKind::Rumble(RumblePattern::Simple(step)) })
    } else if form == 1 {
        if frame.len() < 4 {
            return Err(DecodeError::TruncatedFrame);
        }
        let count: usize = frame[3] as usize;
        if frame.len() < 4 + 7 * count {
            return Err(DecodeError::TruncatedFrame);
        }
        let steps = read_steps(frame, 4, count);
        Ok(
            Action {
                correlation: frame[1],
                kind: ActionKind::Rumble(RumblePattern::Complex(steps)),
            },
        )
    } else {
        Err(DecodeError::UnknownReportId)
    }
}

fn decode_subcommand(frame: &[u8]) -> (res: Result<Action, DecodeError>)
    ensures
        action_result_view(res) == decode_subcommand_spec(frame@),
{
    if frame.len() < 3 {
        return Err(DecodeError::TruncatedFrame);
    }
    let correlation: u8 = frame[1];
    let sub: u8 = frame[2];
    if sub == SUB_PLAYER_LED {
        if frame.len() < 4 {
            return Err(DecodeError::TruncatedFrame);
        }
        Ok(Action { correlation, kind: ActionKind::SetPlayerLed { mask: frame[3] } })
    } else if sub == SUB_HOME_LED {
        if frame.len() < 7 {
            return Err(DecodeError::TruncatedFrame);
        }
        let pattern = HomeLedPattern {
            intensity: frame[3],
            fade_ms: read_u16(frame, 5),
            repeat: frame[4],
        };
        Ok(Action { correlation, kind: ActionKind::SetHomeLed { pattern } })
    } else if sub == SUB_READ_MEMORY {
        if frame.len() < 8 {
            return Err(DecodeError::TruncatedFrame);
        }
        let address: u32 = read_u32(frame, 3);
        Ok(Action { correlation, kind: ActionKind::ReadMemory { address, length: frame[7] } })
    } else if sub == SUB_WRITE_MEMORY {
        if frame.len() < 9 {
            return Err(DecodeError::TruncatedFrame);
        }
        let count: usize = frame[8] as usize;
        if frame.len() < 9 + count {
            return Err(DecodeError::TruncatedFrame);
        }
        let address: u32 = read_u32(frame, 3);
        let bytes = read_bytes(frame, 9, count);
        Ok(
            Action {
                correlation,
                kind: ActionKind::WriteMemory { address, bytes, unsafe_override: frame[7] != 0 },
            },
        )
    } else if sub == SUB_BATTERY {
        Ok(Action { correlation, kind: ActionKind::QueryBattery })
    } else {
        Err(DecodeError::UnknownReportId)
    }
}

/// Reads back the action that an outbound frame carries.
pub fn decode_action(frame: &[u8]) -> (res: Result<Action, DecodeError>)
    ensures
        action_result_view(res) == decode_action_spec(frame@),
{
    if frame.len() == 0 {
        Err(DecodeError::TruncatedFrame)
    } else if frame[0] == REPORT_RUMBLE {
        decode_rumble(frame)
    } else if frame[0] == REPORT_SUBCOMMAND {
        decode_subcommand(frame)
    } else {
        Err(DecodeError::UnknownReportId)
    }
}

/// Encodes an action and reads the frame back: the action comes out again.
pub fn round_trip(action: &Action) -> (res: Result<Action, DecodeError>)
    requires
        fits_frame(action@),
    ensures
        action_result_view(res) == Ok::<ActionView, DecodeError>(action@),
{
    proof {
        lemma_round_trip(action@);
    }
    let frame = encode(action);
    decode_action(frame.bytes.as_slice())
}

/// The id is one under which a device sends reports.
pub open spec fn known_report_id(id: u8) -> bool {
    id == REPORT_BUTTON_STICK || id == REPORT_IMU || id == REPORT_SUBCOMMAND_ACK || id
        == REPORT_BATTERY
}

/// How many bytes a report with this id has at least, its id included.
pub open spec fn report_min_len(id: u8) -> int {
    if id == REPORT_BUTTON_STICK {
        12
    } else if id == REPORT_IMU {
        13
    } else {
        5
    }
}

/// The 24-bit button field whose bytes start at `i`.
pub open spec fn buttons_at(f: Seq<u8>, i: int) -> u32 {
    (f[i] + f[i + 1] * 256 + f[i + 2] * 65536) as u32
}

/// The report that an input frame carries.
///
/// The first byte is the report id. An empty frame, or one shorter than its
/// kind calls for, is truncated; bytes past the report are ignored.
pub open spec fn decode_spec(f: Seq<u8>) -> Result<InputReportView, DecodeError> {
    if f.len() == 0 {
        Err(DecodeError::TruncatedFrame)
    } else if !known_report_id(f[0]) {
        Err(DecodeError::UnknownReportId)
    } else if f.len() < report_min_len(f[0]) {
        Err(DecodeError::TruncatedFrame)
    } else if f[0] == REPORT_BUTTON_STICK {
        Ok(
            InputReportView::ButtonStickState {
                buttons: buttons_at(f, 1),
                left_x: u16_at(f, 4),
                left_y: u16_at(f, 6),
                right_x: u16_at(f, 8),
                right_y: u16_at(f, 10),
            },
        )
    } else if f[0] == REPORT_IMU {
        Ok(
            InputReportView::IMUFrame {
                accel_x: u16_at(f, 1),
                accel_y: u16_at(f, 3),
                accel_z: u16_at(f, 5),
                gyro_x: u16_at(f, 7),
                gyro_y: u16_at(f, 9),
                gyro_z: u16_at(f, 11),
            },
        )
    } else if f[0] == REPORT_SUBCOMMAND_ACK {
        if f.len() < 5 + f[4] {
            Err(DecodeError::TruncatedFrame)
        } else {
            Ok(
                InputReportView::SubcommandAck {
                    correlation: f[1],
                    subcommand: f[2],
                    accepted: f[3] != 0,
                    data: f.subrange(5, 5 + f[4]),
                },
            )
        }
    } else {
        Ok(
            InputReportView::BatteryVoltage {
                correlation: f[1],
                voltage_mv: u16_at(f, 2),
                charging: f[4] != 0,
            },
        )
    }
}

/// What a decoded report, or the error in its place, stands for.
pub open spec fn report_result_view(res: Result<InputReport, DecodeError>) -> Result<
    InputReportView,
    DecodeError,
> {
    match res {
        Ok(report) => Ok(report@),
        Err(e) => Err(e),
    }
}

/// A frame that starts with an unknown report id decodes to
/// `UnknownReportId`, whatever follows the id.
pub proof fn lemma_unknown_report_id(f: Seq<u8>)
    requires
        f.len() > 0,
        !known_report_id(f[0]),
    ensures
        decode_spec(f) == Err::<InputReportView, DecodeError>(DecodeError::UnknownReportId),
{
}

/// Decodes one input frame.
///
/// Never fails the caller: a frame that cannot be decoded comes back as a
/// `DecodeError`, to be dropped.
pub fn decode(frame: &[u8]) -> (res: Result<InputReport, DecodeError>)
    ensures
        report_result_view(res) == decode_spec(frame@),
        frame@.len() > 0 && !known_report_id(frame@[0]) ==> res == Err::<
            InputReport,
            DecodeError,
        >(DecodeError::UnknownReportId),
{
    if frame.len() == 0 {
        return Err(DecodeError::TruncatedFrame);
    }
    let id: u8 = frame[0];
    if id == REPORT_BUTTON_STICK {
        if frame.len() < 12 {
            return Err(DecodeError::TruncatedFrame);
        }
        let buttons: u32 = frame[1] as u32 + frame[2] as u32 * 256 + frame[3] as u32 * 65536;
        Ok(
            InputReport::ButtonStickState {
                buttons,
                left_x: read_u16(frame, 4),
                left_y: read_u16(frame, 6),
                right_x: read_u16(frame, 8),
                right_y: read_u16(frame, 10),
            },
        )
    } else if id == REPORT_IMU {
        if frame.len() < 13 {
            return Err(DecodeError::TruncatedFrame);
        }
        Ok(
            InputReport::IMUFrame {
                accel_x: read_u16(frame, 1),
                accel_y: read_u16(frame, 3),
                accel_z: read_u16(frame, 5),
                gyro_x: read_u16(frame, 7),
                gyro_y: read_u16(frame, 9),
                gyro_z: read_u16(frame, 11),
            },
        )
    } else if id == REPORT_SUBCOMMAND_ACK {
        if frame.len() < 5 {
            return Err(DecodeError::TruncatedFrame);
        }
        let count: usize = frame[4] as usize;
        if frame.len() < 5 + count {
            return Err(DecodeError::TruncatedFrame);
        }
        let data = read_bytes(frame, 5, count);
        Ok(
            InputReport::SubcommandAck {
                correlation: frame[1],
                subcommand: frame[2],
                accepted: frame[3] != 0,
                data,
            },
        )
    } else if id == REPORT_BATTERY {
        if frame.len() < 5 {
            return Err(DecodeError::TruncatedFrame);
        }
        Ok(
            InputReport::BatteryVoltage {
                correlation: frame[1],
                voltage_mv: read_u16(frame, 2),
                charging: frame[4] != 0,
            },
        )
    } else {
        Err(DecodeError::UnknownReportId)
    }
}

} // verus!
