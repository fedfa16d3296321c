//! The table of requests that wait for a correlated reply.
//!
//! One slot per correlation id, so a reply finds its request by index and no
//! two requests in flight can share an id.

use vstd::prelude::*;
use crate::joycon::model::CorrelationId;
use crate::joycon::report::{InputReport, InputReportView};

verus! {

/// Number of correlation ids, and so of slots.
pub const SLOT_COUNT: usize = 256;

/// What the table knows about one correlation id.
#[derive(Debug, Clone, PartialEq, Eq)]
pub enum Slot {
    /// No request uses the id.
    Free,
    /// A request waits for its reply until the deadline.
    Waiting { deadline: u64 },
    /// The reply has arrived and was not collected yet.
    Answered(InputReport),
    /// The engine was shut down while the request waited.
    Cancelled,
    /// The transport failed while the request waited.
    Failed,
}

/// What a [`Slot`] stands for.
pub enum SlotView {
    Free,
    Waiting { deadline: u64 },
    Answered(InputReportView),
    Cancelled,
    Failed,
}

impl View for Slot {
    type V = SlotView;

    open spec fn view(&self) -> SlotView {
        match *self {
            Slot::Free => SlotView::Free,
            Slot::Waiting { deadline } => SlotView::Waiting { deadline },
            Slot::Answered(report) => SlotView::Answered(report@),
            Slot::Cancelled => SlotView::Cancelled,
            Slot::Failed => SlotView::Failed,
        }
    }
}

/// How waiting requests end when the engine stops.
#[derive(Debug, Clone, Copy, PartialEq, Eq)]
pub enum StopReason {
    /// The engine was shut down on request.
    Shutdown,
    /// The transport failed.
    TransportFailure,
}

impl StopReason {
    /// The slot that a waiting request is left with.
    pub open spec fn slot(self) -> SlotView {
        match self {
            StopReason::Shutdown => SlotView::Cancelled,
            StopReason::TransportFailure => SlotView::Failed,
        }
    }
}

/// What a caller learns when it asks for the reply to its request.
#[derive(Debug, Clone, PartialEq, Eq)]
pub enum Reply {
    /// No request with this id is known.
    Unknown,
    /// The reply has not arrived and the deadline has not passed.
    Pending,
    /// The reply.
    Ready(InputReport),
    /// The deadline passed before a reply arrived.
    TimedOut,
    /// The engine was shut down while the request waited.
    Cancelled,
    /// The transport failed while the request waited.
    TransportFailed,
}

/// What a [`Reply`] stands for.
pub enum ReplyView {
    Unknown,
    Pending,
    Ready(InputReportView),
    TimedOut,
    Cancelled,
    TransportFailed,
}

impl View for Reply {
    type V = ReplyView;

    open spec fn view(&self) -> ReplyView {
        match *self {
            Reply::Unknown => ReplyView::Unknown,
            Reply::Pending => ReplyView::Pending,
            Reply::Ready(report) => ReplyView::Ready(report@),
            Reply::TimedOut => ReplyView::TimedOut,
            Reply::Cancelled => ReplyView::Cancelled,
            Reply::TransportFailed => ReplyView::TransportFailed,
        }
    }
}

/// What a caller that polls at time `now` learns from a slot.
pub open spec fn reply_of(slot: SlotView, now: u64) -> ReplyView {
    match slot {
        SlotView::Free => ReplyView::Unknown,
        SlotView::Waiting { deadline } => if now >= deadline {
            ReplyView::TimedOut
        } else {
            ReplyView::Pending
        },
        SlotView::Answered(report) => ReplyView::Ready(report),
        SlotView::Cancelled => ReplyView::Cancelled,
        SlotView::Failed => ReplyView::TransportFailed,
    }
}

/// The slot that a poll at time `now` leaves behind: a request that still
/// waits stays, everything else is collected and the id is free again.
pub open spec fn slot_after_poll(slot: SlotView, now: u64) -> SlotView {
    match slot {
        SlotView::Waiting { deadline } => if now >= deadline {
            SlotView::Free
        } else {
            slot
        },
        _ => SlotView::Free,
    }
}

/// The slot that an arriving report leaves behind: it answers a request that
/// waits under its correlation id and changes nothing else.
pub open spec fn slot_after_report(slot: SlotView, report: InputReportView) -> SlotView {
    match slot {
        SlotView::Waiting { .. } => SlotView::Answered(report),
        _ => slot,
    }
}

/// The slot that a stop of the engine leaves behind: a request that waits
/// ends with the reason of the stop, everything else stays.
pub open spec fn slot_after_stop(slot: SlotView, reason: StopReason) -> SlotView {
    match slot {
        SlotView::Waiting { .. } => reason.slot(),
        _ => slot,
    }
}

/// The requests in flight, by correlation id.
pub struct PendingTable {
    slots: Vec<Slot>,
}

impl View for PendingTable {
    type V = Seq<SlotView>;

    closed spec fn view(&self) -> Seq<SlotView> {
        Seq::new(self.slots@.len(), |i: int| self.slots@[i]@)
    }
}

impl PendingTable {
    /// The table has one slot for every correlation id.
    pub closed spec fn wf(&self) -> bool {
        self.slots@.len() == SLOT_COUNT
    }

    /// A well-formed table has one slot for every correlation id.
    pub proof fn lemma_len(&self)
        requires
            self.wf(),
        ensures
            self@.len() == SLOT_COUNT,
    {
    }

    /// A table in which every id is free.
    pub fn new() -> (table: PendingTable)
        ensures
            table.wf(),
            table@.len() == SLOT_COUNT,
            forall|c: int| 0 <= c < SLOT_COUNT ==> table@[c] == SlotView::Free,
    {
        let mut slots: Vec<Slot> = Vec::new();
        let mut i: usize = 0;
        while i < SLOT_COUNT
            invariant
                i <= SLOT_COUNT,
                slots@.len() == i,
                forall|c: int| 0 <= c < i ==> slots@[c] == Slot::Free,
            decreases SLOT_COUNT - i,
        {
            slots.push(Slot::Free);
            i += 1;
        }
        PendingTable { slots }
    }

    /// Tells whether no request uses the id.
    pub fn is_free(&self, correlation: CorrelationId) -> (free: bool)
        requires
            self.wf(),
        ensures
            free == (self@[correlation as int] == SlotView::Free),
    {
        match &self.slots[correlation as usize] {
            Slot::Free => true,
            _ => false,
        }
    }

    /// Starts to wait for the reply to a request, until `deadline`.
    ///
    /// Refuses, and changes nothing, if a request already uses the id.
    pub fn begin(&mut self, correlation: CorrelationId, deadline: u64) -> (started: bool)
        requires
            old(self).wf(),
        ensures
            final(self).wf(),
            started == (old(self)@[correlation as int] == SlotView::Free),
            started ==> final(self)@ == old(self)@.update(
                correlation as int,
                SlotView::Waiting { deadline },
            ),
            !started ==> final(self)@ == old(self)@,
    {
        let free = match &self.slots[correlation as usize] {
            Slot::Free => true,
            _ => false,
        };
        if free {
            self.slots.set(correlation as usize, Slot::Waiting { deadline });
            assert(self@ =~= old(self)@.update(correlation as int, SlotView::Waiting { deadline }));
        }
        free
    }

    /// Hands an arriving report to the request that waits for it.
    ///
    /// Only a report that carries a correlation id can answer a request, and
    /// only a request that still waits is answered.
    pub fn resolve(&mut self, report: &InputReport) -> (answered: bool)
        requires
            old(self).wf(),
        ensures
            final(self).wf(),
            match report@.correlation() {
                Some(c) => {
                    &&& answered == (old(self)@[c as int] is Waiting)
                    &&& final(self)@ == old(self)@.update(
                        c as int,
                        slot_after_report(old(self)@[c as int], report@),
                    )
                },
                None => !answered && final(self)@ == old(self)@,
            },
    {
        match report.correlation() {
            Some(c) => {
                let waiting = match &self.slots[c as usize] {
                    Slot::Waiting { .. } => true,
                    _ => false,
                };
                if waiting {
                    self.slots.set(c as usize, Slot::Answered(report.duplicate()));
                }
                assert(self@ =~= old(self)@.update(
                    c as int,
                    slot_after_report(old(self)@[c as int], report@),
                ));
                waiting
            },
            None => false,
        }
    }

    /// Asks for the reply to a request at time `now`.
    ///
    /// A request that still waits stays in the table; any other answer is
    /// handed out once and frees the id.
    pub fn poll(&mut self, correlation: CorrelationId, now: u64) -> (reply: Reply)
        requires
            old(self).wf(),
        ensures
            final(self).wf(),
            reply@ == reply_of(old(self)@[correlation as int], now),
            final(self)@ == old(self)@.update(
                correlation as int,
                slot_after_poll(old(self)@[correlation as int], now),
            ),
    {
        let index: usize = correlation as usize;
        let still_waiting = match &self.slots[index] {
            Slot::Waiting { deadline } => now < *deadline,
            _ => false,
        };
        if still_waiting {
            assert(self@ =~= old(self)@.update(
                correlation as int,
                slot_after_poll(old(self)@[correlation as int], now),
            ));
            return Reply::Pending;
        }
        let mut taken = Slot::Free;
        self.slots.set_and_swap(index, &mut taken);
        assert(self@ =~= old(self)@.update(
            correlation as int,
            slot_after_poll(old(self)@[correlation as int], now),
        ));
        match taken {
            Slot::Free => Reply::Unknown,
            Slot::Waiting { .. } => Reply::TimedOut,
            Slot::Answered(report) => Reply::Ready(report),
            Slot::Cancelled => Reply::Cancelled,
            Slot::Failed => Reply::TransportFailed,
        }
    }

    /// Ends every request that still waits, because the engine stops.
    pub fn stop_all(&mut self, reason: StopReason)
        requires
            old(self).wf(),
        ensures
            final(self).wf(),
            forall|c: int|
                0 <= c < SLOT_COUNT ==> #[trigger] final(self)@[c] == slot_after_stop(
                    old(self)@[c],
                    reason,
                ),
    {
        let mut i: usize = 0;
        while i < SLOT_COUNT
            invariant
                i <= SLOT_COUNT,
                self.slots@.len() == SLOT_COUNT,
                old(self).slots@.len() == SLOT_COUNT,
                forall|c: int|
                    0 <= c < i ==> (#[trigger] self.slots@[c])@ == slot_after_stop(
                        old(self).slots@[c]@,
                        reason,
                    ),
                forall|c: int|
                    i <= c < SLOT_COUNT ==> #[trigger] self.slots@[c] == old(self).slots@[c],
            decreases SLOT_COUNT - i,
        {
            let waiting = match &self.slots[i] {
                Slot::Waiting { .. } => true,
                _ => false,
            };
            if waiting {
                let ended = match reason {
                    StopReason::Shutdown => Slot::Cancelled,
                    StopReason::TransportFailure => Slot::Failed,
                };
                self.slots.set(i, ended);
            }
            i += 1;
        }
    }
}

} // verus!
