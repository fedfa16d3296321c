//! The input dispatcher: the ordered collection of report handlers of one
//! device, the requests that wait for a reply, and what is done with each
//! frame that the transport delivers.

use vstd::prelude::*;
use crate::joycon::codec::{decode, decode_spec};
use crate::joycon::model::CorrelationId;
use crate::joycon::pending::{
    reply_of, slot_after_poll, slot_after_report, slot_after_stop, PendingTable, Reply, SlotView,
    StopReason, SLOT_COUNT,
};
use crate::joycon::report::{DecodeError, InputReport, InputReportView};

verus! {

/// How one handler fared with one report.
#[derive(Debug, Clone, Copy, PartialEq, Eq)]
pub enum HandlerStatus {
    /// The handler dealt with the report.
    Done,
    /// The handler failed; the failure stays with this handler and report.
    Failed,
}

/// What became of one frame.
#[derive(Debug, Clone, PartialEq, Eq)]
pub enum FrameOutcome {
    /// The engine does not run: the frame was not looked at.
    Ignored,
    /// The frame could not be decoded and was dropped.
    Dropped(DecodeError),
    /// The frame was decoded and every handler was given the report.
    Delivered {
        report: InputReport,
        /// One status for each handler, in registration order.
        statuses: Vec<HandlerStatus>,
        /// The report answered a request that waited for it.
        answered: bool,
    },
}

/// The handlers of one device, in the order in which they were registered,
/// and the requests of that device that wait for a reply.
pub struct InputHandlerThread<F> {
    input_handler_callbacks: Vec<F>,
    waiters: PendingTable,
}

impl<F: Fn(&InputReport) -> HandlerStatus> InputHandlerThread<F> {
    /// The handlers in registration order.
    pub closed spec fn handlers(&self) -> Seq<F> {
        self.input_handler_callbacks@
    }

    /// The requests in flight, by correlation id.
    pub closed spec fn waiters(&self) -> Seq<SlotView> {
        self.waiters@
    }

    /// Every handler accepts every report, and there is a slot for every
    /// correlation id.
    pub closed spec fn wf(&self) -> bool {
        &&& self.waiters.wf()
        &&& forall|i: int, r: InputReport|
            0 <= i < self.input_handler_callbacks@.len() ==> #[trigger] call_requires(
                self.input_handler_callbacks@[i],
                (&r,),
            )
    }

    /// A well-formed dispatcher has one slot for every correlation id.
    pub proof fn lemma_waiters_len(&self)
        requires
            self.wf(),
        ensures
            self.waiters().len() == SLOT_COUNT,
    {
        self.waiters.lemma_len();
    }

    /// Every handler of a well-formed dispatcher accepts every report.
    pub proof fn lemma_handlers_callable(&self)
        requires
            self.wf(),
        ensures
            forall|i: int, r: InputReport|
                0 <= i < self.handlers().len() ==> #[trigger] call_requires(
                    self.handlers()[i],
                    (&r,),
                ),
    {
    }

    /// A dispatcher without handlers and without requests in flight.
    pub fn new() -> (input: Self)
        ensures
            input.wf(),
            input.handlers() == Seq::<F>::empty(),
            input.waiters().len() == SLOT_COUNT,
            forall|c: int| 0 <= c < SLOT_COUNT ==> input.waiters()[c] == SlotView::Free,
    {
        InputHandlerThread { input_handler_callbacks: Vec::new(), waiters: PendingTable::new() }
    }

    /// Registers a handler behind those that are registered already.
    pub fn register(&mut self, handler: F)
        requires
            old(self).wf(),
            forall|r: InputReport| #[trigger] call_requires(handler, (&r,)),
        ensures
            final(self).wf(),
            final(self).handlers() == old(self).handlers().push(handler),
            final(self).waiters() == old(self).waiters(),
    {
        self.input_handler_callbacks.push(handler);
    }

    /// Takes the handler at `place` out of the collection; the order of the
    /// others stays. Returns nothing, and changes nothing, if there is no
    /// such handler.
    pub fn unregister(&mut self, place: usize) -> (removed: Option<F>)
        requires
            old(self).wf(),
        ensures
            final(self).wf(),
            final(self).waiters() == old(self).waiters(),
            place < old(self).handlers().len() ==> {
                &&& removed == Some(old(self).handlers()[place as int])
                &&& final(self).handlers() == old(self).handlers().remove(place as int)
            },
            place >= old(self).handlers().len() ==> {
                &&& removed.is_none()
                &&& final(self).handlers() == old(self).handlers()
            },
    {
        if place < self.input_handler_callbacks.len() {
            Some(self.input_handler_callbacks.remove(place))
        } else {
            None
        }
    }

    /// Number of registered handlers.
    pub fn handler_count(&self) -> (n: usize)
        ensures
            n == self.handlers().len(),
    {
        self.input_handler_callbacks.len()
    }

    /// Gives the report to every handler, in registration order.
    ///
    /// Each handler is called once and its status recorded, whatever the
    /// handlers before it returned.
    pub fn dispatch(&self, report: &InputReport) -> (statuses: Vec<HandlerStatus>)
        requires
            self.wf(),
        ensures
            statuses@.len() == self.handlers().len(),
            forall|i: int|
                0 <= i < statuses@.len() ==> call_ensures(
                    self.handlers()[i],
                    (report,),
                    #[trigger] statuses@[i],
                ),
    {
        let mut statuses: Vec<HandlerStatus> = Vec::new();
        let mut k: usize = 0;
        while k < self.input_handler_callbacks.len()
            invariant
                self.wf(),
                k <= self.input_handler_callbacks@.len(),
                statuses@.len() == k,
                forall|i: int|
                    0 <= i < k ==> call_ensures(
                        self.input_handler_callbacks@[i],
                        (report,),
                        #[trigger] statuses@[i],
                    ),
            decreases self.input_handler_callbacks@.len() - k,
        {
            let handler = &self.input_handler_callbacks[k];
            let status = handler(report);
            statuses.push(status);
            k += 1;
        }
        statuses
    }

    /// Deals with one frame from the transport.
    ///
    /// A frame that cannot be decoded is dropped. A decoded report goes to
    /// every handler and then to the request that waits for it, if any.
    /// Neither a dropped frame nor a failing handler changes the handlers.
    pub fn on_frame(&mut self, frame: &[u8]) -> (outcome: FrameOutcome)
        requires
            old(self).wf(),
        ensures
            final(self).wf(),
            final(self).handlers() == old(self).handlers(),
            match outcome {
                FrameOutcome::Ignored => false,
                FrameOutcome::Dropped(e) => {
                    &&& decode_spec(frame@) == Err::<InputReportView, DecodeError>(e)
                    &&& final(self).waiters() == old(self).waiters()
                },
                FrameOutcome::Delivered { report, statuses, answered } => {
                    &&& decode_spec(frame@) == Ok::<InputReportView, DecodeError>(report@)
                    &&& statuses@.len() == old(self).handlers().len()
                    &&& forall|i: int|
                        0 <= i < statuses@.len() ==> call_ensures(
                            old(self).handlers()[i],
                            (&report,),
                            #[trigger] statuses@[i],
                        )
                    &&& match report@.correlation() {
                        Some(c) => {
                            &&& answered == (old(self).waiters()[c as int] is Waiting)
                            &&& final(self).waiters() == old(self).waiters().update(
                                c as int,
                                slot_after_report(old(self).waiters()[c as int], report@),
                            )
                        },
                        None => !answered && final(self).waiters() == old(self).waiters(),
                    }
                },
            },
    {
        match decode(frame) {
            Err(e) => FrameOutcome::Dropped(e),
            Ok(report) => {
                let statuses = self.dispatch(&report);
                let answered = self.waiters.resolve(&report);
                FrameOutcome::Delivered { report, statuses, answered }
            },
        }
    }

    /// Starts to wait for the reply to a request, until `deadline`.
    ///
    /// Refuses, and changes nothing, if a request already uses the id.
    pub fn await_reply(&mut self, correlation: CorrelationId, deadline: u64) -> (started: bool)
        requires
            old(self).wf(),
        ensures
            final(self).wf(),
            final(self).handlers() == old(self).handlers(),
            started == (old(self).waiters()[correlation as int] == SlotView::Free),
            started ==> final(self).waiters() == old(self).waiters().update(
                correlation as int,
                SlotView::Waiting { deadline },
            ),
            !started ==> final(self).waiters() == old(self).waiters(),
    {
        self.waiters.begin(correlation, deadline)
    }

    /// Asks for the reply to a request at time `now`.
    pub fn take_reply(&mut self, correlation: CorrelationId, now: u64) -> (reply: Reply)
        requires
            old(self).wf(),
        ensures
            final(self).wf(),
            final(self).handlers() == old(self).handlers(),
            reply@ == reply_of(old(self).waiters()[correlation as int], now),
            final(self).waiters() == old(self).waiters().update(
                correlation as int,
                slot_after_poll(old(self).waiters()[correlation as int], now),
            ),
    {
        self.waiters.poll(correlation, now)
    }

    /// Ends every request that still waits, because the engine stops.
    pub fn stop(&mut self, reason: StopReason)
        requires
            old(self).wf(),
        ensures
            final(self).wf(),
            final(self).handlers() == old(self).handlers(),
            final(self).waiters().len() == SLOT_COUNT,
            forall|c: int|
                0 <= c < SLOT_COUNT ==> #[trigger] final(self).waiters()[c] == slot_after_stop(
                    old(self).waiters()[c],
                    reason,
                ),
    {
        self.waiters.stop_all(reason);
        proof {
            self.waiters.lemma_len();
        }
    }
}

} // verus!
