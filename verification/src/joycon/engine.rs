//! The device engine: one device's identity, limits, calibration, battery
//! reading, handlers, waiting requests and action queue, and the rules by
//! which they change.
//!
//! The engine performs no transport operation itself. The input loop hands
//! it every frame and every read error; the output loop asks it what to
//! write and tells it how the write went.

use vstd::prelude::*;
use crate::joycon::action::{
    Action, ActionKind, ActionKindView, ActionRequest, ActionRequestView, ActionView,
};
use crate::joycon::calibration::CalibrationProfile;
use crate::joycon::codec::{decode_spec, encode_spec};
use crate::joycon::error::{JoyconError, JoyconResult, ReadError};
use crate::joycon::input::{FrameOutcome, HandlerStatus, InputHandlerThread};
use crate::joycon::model::{
    BatteryInfo, CorrelationId, DeviceIdentity, DeviceIdentityView, DeviceState,
};
use crate::joycon::output::{
    lemma_writes_follow_queue_order, next_step, queue_after_step, writes_of, OutputDispatcher,
    OutputStep,
};
use crate::joycon::pending::{
    reply_of, slot_after_poll, slot_after_report, slot_after_stop, Reply, ReplyView, SlotView,
    StopReason, SLOT_COUNT,
};
use crate::joycon::report::{DecodeError, InputReport, InputReportView};
use crate::joycon::validator::DeviceCapabilities;

verus! {

/// The time at which a request made at `now` gives up, if the clock can
/// hold it, and the end of time if not.
pub open spec fn deadline_after(now: u64, timeout_ms: u64) -> u64 {
    if now + timeout_ms > u64::MAX {
        u64::MAX
    } else {
        (now + timeout_ms) as u64
    }
}

/// What a caller that asks for its reply is told.
pub open spec fn reply_result(reply: ReplyView) -> Result<Option<InputReportView>, JoyconError> {
    match reply {
        ReplyView::Unknown => Err(JoyconError::UnknownCorrelation),
        ReplyView::Pending => Ok(None),
        ReplyView::Ready(report) => Ok(Some(report)),
        ReplyView::TimedOut => Err(JoyconError::Timeout),
        ReplyView::Cancelled => Err(JoyconError::Cancelled),
        ReplyView::TransportFailed => Err(JoyconError::Transport),
    }
}

/// What a collected reply, or the error in its place, stands for.
pub open spec fn reply_result_view(res: Result<Option<InputReport>, JoyconError>) -> Result<
    Option<InputReportView>,
    JoyconError,
> {
    match res {
        Ok(Some(report)) => Ok(Some(report@)),
        Ok(None) => Ok(None),
        Err(e) => Err(e),
    }
}

/// The bytes that a reply to a memory read carries.
pub open spec fn memory_of(report: InputReportView) -> Result<Seq<u8>, JoyconError> {
    match report {
        InputReportView::SubcommandAck { accepted, data, .. } => if accepted {
            Ok(data)
        } else {
            Err(JoyconError::Rejected)
        },
        _ => Err(JoyconError::UnexpectedReply),
    }
}

/// What the bytes of a memory reply, or the error in their place, stand for.
pub open spec fn memory_result_view(res: Result<Vec<u8>, JoyconError>) -> Result<
    Seq<u8>,
    JoyconError,
> {
    match res {
        Ok(bytes) => Ok(bytes@),
        Err(e) => Err(e),
    }
}

/// Takes the bytes out of the reply to a memory read.
pub fn memory_reply(report: InputReport) -> (res: Result<Vec<u8>, JoyconError>)
    ensures
        memory_result_view(res) == memory_of(report@),
{
    match report {
        InputReport::SubcommandAck { accepted, data, .. } => {
            if accepted {
                Ok(data)
            } else {
                Err(JoyconError::Rejected)
            }
        },
        _ => Err(JoyconError::UnexpectedReply),
    }
}

/// What an engine stands for.
pub struct JoyconView<F> {
    pub identity: DeviceIdentityView,
    pub capabilities: DeviceCapabilities,
    pub calibration: CalibrationProfile,
    pub state: DeviceState,
    pub battery: BatteryInfo,
    /// The handlers in registration order.
    pub handlers: Seq<F>,
    /// The requests in flight, by correlation id.
    pub waiters: Seq<SlotView>,
    /// The actions that wait to be written, oldest first.
    pub queue: Seq<ActionRequestView>,
}

impl<F> JoyconView<F> {
    /// The loops of the engine run: frames are taken and writes are made.
    pub open spec fn running(self) -> bool {
        self.state == DeviceState::Connected || self.state == DeviceState::Disconnecting
    }

    /// The engine after its loops were started: a discovered engine is
    /// connected, any other stays as it is.
    pub open spec fn after_start(self) -> Self {
        if self.state == DeviceState::Discovered {
            JoyconView { state: DeviceState::Connected, ..self }
        } else {
            self
        }
    }

    /// The request under which an action enters the queue.
    pub open spec fn request_for(self, action: ActionView, now: u64) -> ActionRequestView {
        ActionRequestView { action, target: self.identity, enqueued_at: now }
    }

    /// Why an action cannot be enqueued, if it cannot: the engine must be
    /// connected and the action must pass validation.
    pub open spec fn enqueue_error(self, action: ActionView) -> Option<JoyconError> {
        if self.state != DeviceState::Connected {
            Some(JoyconError::NotConnected)
        } else {
            match self.capabilities.validation_result(action) {
                Err(e) => Some(JoyconError::Validation(e)),
                Ok(_) => None,
            }
        }
    }

    /// The engine after an attempt to enqueue an action at time `now`.
    pub open spec fn after_enqueue(self, action: ActionView, now: u64) -> Self {
        if self.enqueue_error(action).is_none() {
            JoyconView { queue: self.queue.push(self.request_for(action, now)), ..self }
        } else {
            self
        }
    }

    /// Why a request that waits for a reply cannot be made, if it cannot: it
    /// must be fit to enqueue and its correlation id must be free.
    pub open spec fn request_error(self, action: ActionView) -> Option<JoyconError> {
        if self.enqueue_error(action).is_some() {
            self.enqueue_error(action)
        } else if self.waiters[action.correlation as int] != SlotView::Free {
            Some(JoyconError::CorrelationInUse)
        } else {
            None
        }
    }

    /// The engine after an attempt to make a request at time `now`.
    pub open spec fn after_request(self, action: ActionView, now: u64) -> Self {
        if self.request_error(action).is_none() {
            JoyconView {
                queue: self.queue.push(self.request_for(action, now)),
                waiters: self.waiters.update(
                    action.correlation as int,
                    SlotView::Waiting {
                        deadline: deadline_after(now, self.capabilities.reply_timeout_ms),
                    },
                ),
                ..self
            }
        } else {
            self
        }
    }

    /// The engine after a report was delivered: a battery report refreshes
    /// the cached reading, and a report with a correlation id answers the
    /// request that waits for it.
    pub open spec fn after_report(self, report: InputReportView) -> Self {
        JoyconView {
            battery: match report {
                InputReportView::BatteryVoltage { voltage_mv, charging, .. } => BatteryInfo {
                    voltage_mv,
                    charging,
                },
                _ => self.battery,
            },
            waiters: match report.correlation() {
                Some(c) => self.waiters.update(
                    c as int,
                    slot_after_report(self.waiters[c as int], report),
                ),
                None => self.waiters,
            },
            ..self
        }
    }

    /// The engine after it stopped for good: it is disconnected, its queue
    /// is empty and no request waits any more.
    pub open spec fn after_stop(self, reason: StopReason) -> Self {
        JoyconView {
            state: DeviceState::Disconnected,
            queue: Seq::empty(),
            waiters: Seq::new(
                self.waiters.len(),
                |c: int| slot_after_stop(self.waiters[c], reason),
            ),
            ..self
        }
    }

    /// The engine after a read from the transport failed: a timeout changes
    /// nothing, and the loss of the device stops a running engine.
    pub open spec fn after_read_error(self, error: ReadError) -> Self {
        if error == ReadError::Disconnected && self.running() {
            self.after_stop(StopReason::TransportFailure)
        } else {
            self
        }
    }

    /// The engine after a write: a failed write leaves an engine that was
    /// not yet on its way out disconnecting.
    pub open spec fn after_write(self, ok: bool) -> Self {
        if !ok && self.state.rank() < DeviceState::Disconnecting.rank() {
            JoyconView { state: DeviceState::Disconnecting, ..self }
        } else {
            self
        }
    }
}

impl<F> JoyconView<F> {
    /// The engine after attempts to enqueue a run of actions, one after the
    /// other, at time `now`.
    pub open spec fn after_enqueue_all(self, actions: Seq<ActionView>, now: u64) -> Self
        decreases actions.len(),
    {
        if actions.len() == 0 {
            self
        } else {
            self.after_enqueue_all(actions.drop_last(), now).after_enqueue(actions.last(), now)
        }
    }

    /// The life cycle only moves forward: nothing that happens to an engine
    /// takes it back to an earlier state.
    pub proof fn lemma_state_moves_forward(
        self,
        action: ActionView,
        report: InputReportView,
        reason: StopReason,
        error: ReadError,
        ok: bool,
        now: u64,
    )
        ensures
            self.after_start().state.rank() >= self.state.rank(),
            self.after_enqueue(action, now).state == self.state,
            self.after_request(action, now).state == self.state,
            self.after_report(report).state == self.state,
            self.after_stop(reason).state.rank() >= self.state.rank(),
            self.after_read_error(error).state.rank() >= self.state.rank(),
            self.after_write(ok).state.rank() >= self.state.rank(),
    {
    }

    /// Actions leave in the order in which they came: when a connected
    /// engine with an empty queue is given a run of actions that are within
    /// its limits, draining the queue writes the frame of each action, in the
    /// order of the run.
    pub proof fn lemma_writes_follow_enqueue_order(self, actions: Seq<ActionView>, now: u64)
        requires
            self.state == DeviceState::Connected,
            self.queue.len() == 0,
            forall|i: int|
                0 <= i < actions.len() ==> self.capabilities.within_bounds(#[trigger] actions[i]),
        ensures
            writes_of(self.after_enqueue_all(actions, now).queue, self.capabilities) == Seq::new(
                actions.len(),
                |i: int| encode_spec(actions[i]),
            ),
    {
        self.lemma_queue_after_enqueue_all(actions, now);
        let queue = self.after_enqueue_all(actions, now).queue;
        lemma_writes_follow_queue_order(queue, self.capabilities);
        assert(writes_of(queue, self.capabilities) =~= Seq::new(
            actions.len(),
            |i: int| encode_spec(actions[i]),
        ));
    }

    /// Enqueueing a run of actions that are within the limits of a connected
    /// engine appends one request for each action, in the order of the run,
    /// and changes nothing else.
    pub proof fn lemma_queue_after_enqueue_all(self, actions: Seq<ActionView>, now: u64)
        requires
            self.state == DeviceState::Connected,
            forall|i: int|
                0 <= i < actions.len() ==> self.capabilities.within_bounds(#[trigger] actions[i]),
        ensures
            self.after_enqueue_all(actions, now) == (JoyconView {
                queue: self.queue + Seq::new(
                    actions.len(),
                    |i: int| self.request_for(actions[i], now),
                ),
                ..self
            }),
        decreases actions.len(),
    {
        if actions.len() == 0 {
            assert(self.queue + Seq::new(0, |i: int| self.request_for(actions[i], now))
                =~= self.queue);
        } else {
            let head = actions.drop_last();
            self.lemma_queue_after_enqueue_all(head, now);
            let mid = self.after_enqueue_all(head, now);
            self.capabilities.lemma_valid_iff_within_bounds(actions.last());
            assert(mid.queue.push(mid.request_for(actions.last(), now)) =~= self.queue + Seq::new(
                actions.len(),
                |i: int| self.request_for(actions[i], now),
            ));
        }
    }
}

/// The engine of one device.
pub struct Joycon<F> {
    device_handle: DeviceIdentity,
    capabilities: DeviceCapabilities,
    calibration: CalibrationProfile,
    state: DeviceState,
    battery: BatteryInfo,
    input_handler_thread: InputHandlerThread<F>,
    output: OutputDispatcher,
}

impl<F: Fn(&InputReport) -> HandlerStatus> View for Joycon<F> {
    type V = JoyconView<F>;

    closed spec fn view(&self) -> JoyconView<F> {
        JoyconView {
            identity: self.device_handle@,
            capabilities: self.capabilities,
            calibration: self.calibration,
            state: self.state,
            battery: self.battery,
            handlers: self.input_handler_thread.handlers(),
            waiters: self.input_handler_thread.waiters(),
            queue: self.output.queue(),
        }
    }
}

impl<F: Fn(&InputReport) -> HandlerStatus> Joycon<F> {
    /// The engine is consistent: its limits are well formed, every handler
    /// accepts every report, the output loop is stopped exactly when the
    /// engine is on its way out, and no request waits on an engine that does
    /// not run.
    pub closed spec fn wf(&self) -> bool {
        &&& self.capabilities.wf()
        &&& self.input_handler_thread.wf()
        &&& self.output.stopped() == (self.state.rank() >= DeviceState::Disconnecting.rank())
        &&& !self@.running() ==> forall|c: int|
            0 <= c < SLOT_COUNT ==> !(#[trigger] self@.waiters[c] is Waiting)
    }

    /// A well-formed engine has one slot for every correlation id, and every
    /// handler of it accepts every report.
    pub proof fn lemma_wf(&self)
        requires
            self.wf(),
        ensures
            self@.capabilities.wf(),
            self@.waiters.len() == SLOT_COUNT,
            forall|i: int, r: InputReport|
                0 <= i < self@.handlers.len() ==> #[trigger] call_requires(
                    self@.handlers[i],
                    (&r,),
                ),
            !self@.running() ==> forall|c: int|
                0 <= c < SLOT_COUNT ==> !(#[trigger] self@.waiters[c] is Waiting),
    {
        self.input_handler_thread.lemma_waiters_len();
        self.input_handler_thread.lemma_handlers_callable();
    }

    /// Sets up the engine of a newly discovered device.
    ///
    /// Fails exactly when the limits are not well formed. The new engine is
    /// in state `Discovered`, with no handler, nothing queued and every
    /// correlation id free.
    pub fn new(
        device_info: DeviceIdentity,
        capabilities: DeviceCapabilities,
        calibration: CalibrationProfile,
    ) -> (res: JoyconResult<Joycon<F>>)
        ensures
            res.is_ok() == capabilities.wf(),
            match res {
                Ok(joycon) => {
                    &&& joycon.wf()
                    &&& joycon@.identity == device_info@
                    &&& joycon@.capabilities == capabilities
                    &&& joycon@.calibration == calibration
                    &&& joycon@.state == DeviceState::Discovered
                    &&& joycon@.battery == (BatteryInfo { voltage_mv: 0, charging: false })
                    &&& joycon@.handlers == Seq::<F>::empty()
                    &&& joycon@.queue == Seq::<ActionRequestView>::empty()
                    &&& joycon@.waiters.len() == SLOT_COUNT
                    &&& forall|c: int| 0 <= c < SLOT_COUNT ==> joycon@.waiters[c] == SlotView::Free
                },
                Err(e) => e is InitializationError,
            },
    {
        if !capabilities.is_well_formed() {
            return Err(
                JoyconError::InitializationError(
                    "the capabilities allow actions that do not fit a frame".to_owned(),
                ),
            );
        }
        Ok(Self::build(device_info, capabilities, calibration))
    }

    /// Sets up an engine under limits that are known to be well formed.
    pub(crate) fn build(
        device_info: DeviceIdentity,
        capabilities: DeviceCapabilities,
        calibration: CalibrationProfile,
    ) -> (joycon: Joycon<F>)
        requires
            capabilities.wf(),
        ensures
            joycon.wf(),
            joycon@.identity == device_info@,
            joycon@.capabilities == capabilities,
            joycon@.calibration == calibration,
            joycon@.state == DeviceState::Discovered,
            joycon@.battery == (BatteryInfo { voltage_mv: 0, charging: false }),
            joycon@.handlers == Seq::<F>::empty(),
            joycon@.queue == Seq::<ActionRequestView>::empty(),
            joycon@.waiters.len() == SLOT_COUNT,
            forall|c: int| 0 <= c < SLOT_COUNT ==> joycon@.waiters[c] == SlotView::Free,
    {
        Joycon {
            device_handle: device_info,
            capabilities,
            calibration,
            state: DeviceState::Discovered,
            battery: BatteryInfo { voltage_mv: 0, charging: false },
            input_handler_thread: InputHandlerThread::new(),
            output: OutputDispatcher::new(),
        }
    }

    /// Marks the engine connected once its loops run. An engine that was
    /// connected before, or is on its way out, stays as it is.
    pub fn start(&mut self)
        requires
            old(self).wf(),
        ensures
            final(self).wf(),
            final(self)@ == old(self)@.after_start(),
    {
        match self.state {
            DeviceState::Discovered => {
                self.state = DeviceState::Connected;
            },
            _ => {},
        }
    }

    /// The identity of the device.
    pub fn identity(&self) -> (id: &DeviceIdentity)
        ensures
            id@ == self@.identity,
    {
        &self.device_handle
    }

    /// Where the engine stands in its life cycle.
    pub fn state(&self) -> (state: DeviceState)
        ensures
            state == self@.state,
    {
        self.state
    }

    /// The limits of the device.
    pub fn capabilities(&self) -> (capabilities: DeviceCapabilities)
        ensures
            capabilities == self@.capabilities,
    {
        self.capabilities
    }

    /// The calibration profile of the device.
    pub fn calibration(&self) -> (calibration: CalibrationProfile)
        ensures
            calibration == self@.calibration,
    {
        self.calibration
    }

    /// Attaches a new calibration profile and hands the old one back.
    pub fn replace_calibration(&mut self, profile: CalibrationProfile) -> (previous:
        CalibrationProfile)
        requires
            old(self).wf(),
        ensures
            final(self).wf(),
            previous == old(self)@.calibration,
            final(self)@ == (JoyconView { calibration: profile, ..old(self)@ }),
    {
        let previous = self.calibration;
        self.calibration = profile;
        previous
    }

    /// The last battery reading that the device reported.
    pub fn query_battery(&self) -> (battery: BatteryInfo)
        ensures
            battery == self@.battery,
    {
        self.battery
    }

    /// Number of registered handlers.
    pub fn handler_count(&self) -> (n: usize)
        ensures
            n == self@.handlers.len(),
    {
        self.input_handler_thread.handler_count()
    }

    /// Number of actions that wait to be written.
    pub fn queue_len(&self) -> (n: usize)
        ensures
            n == self@.queue.len(),
    {
        self.output.len()
    }

    /// Registers a report handler behind those that are registered already.
    pub fn register_handler(&mut self, handler: F)
        requires
            old(self).wf(),
            forall|r: InputReport| #[trigger] call_requires(handler, (&r,)),
        ensures
            final(self).wf(),
            final(self)@ == (JoyconView {
                handlers: old(self)@.handlers.push(handler),
                ..old(self)@
            }),
    {
        self.input_handler_thread.register(handler);
    }

    /// Takes the handler at `place` out of the engine; the order of the
    /// others stays. Returns nothing, and changes nothing, if there is no
    /// such handler.
    pub fn unregister_handler(&mut self, place: usize) -> (removed: Option<F>)
        requires
            old(self).wf(),
        ensures
            final(self).wf(),
            place < old(self)@.handlers.len() ==> {
                &&& removed == Some(old(self)@.handlers[place as int])
                &&& final(self)@ == (JoyconView {
                    handlers: old(self)@.handlers.remove(place as int),
                    ..old(self)@
                })
            },
            place >= old(self)@.handlers.len() ==> removed.is_none() && final(self)@ == old(self)@,
    {
        self.input_handler_thread.unregister(place)
    }

    /// Registers a report handler behind those that are registered already.
    pub fn add_input_thread_callback(&mut self, cb: F)
        requires
            old(self).wf(),
            forall|r: InputReport| #[trigger] call_requires(cb, (&r,)),
        ensures
            final(self).wf(),
            final(self)@ == (JoyconView { handlers: old(self)@.handlers.push(cb), ..old(self)@ }),
    {
        self.register_handler(cb)
    }

    /// Validates an action and appends it to the queue of the device.
    ///
    /// Fails with `NotConnected` unless the engine is connected, and with
    /// the validator's complaint if the action is not within the limits; a
    /// rejected action never reaches the queue. On success the caller gets
    /// the correlation id of the action back.
    pub fn enqueue_action(&mut self, action: Action, now: u64) -> (res: Result<
        CorrelationId,
        JoyconError,
    >)
        requires
            old(self).wf(),
        ensures
            final(self).wf(),
            final(self)@ == old(self)@.after_enqueue(action@, now),
            res == match old(self)@.enqueue_error(action@) {
                Some(e) => Err::<CorrelationId, JoyconError>(e),
                None => Ok(action@.correlation),
            },
    {
        if !self.state.is_connected() {
            return Err(JoyconError::NotConnected);
        }
        let request = ActionRequest {
            action,
            target: self.device_handle.duplicate(),
            enqueued_at: now,
        };
        match self.output.enqueue(request, &self.capabilities) {
            Ok(correlation) => Ok(correlation),
            Err(e) => Err(JoyconError::Validation(e)),
        }
    }

    /// Enqueues an action whose reply the caller will wait for.
    fn request(&mut self, action: Action, now: u64) -> (res: Result<CorrelationId, JoyconError>)
        requires
            old(self).wf(),
        ensures
            final(self).wf(),
            final(self)@ == old(self)@.after_request(action@, now),
            res == match old(self)@.request_error(action@) {
                Some(e) => Err::<CorrelationId, JoyconError>(e),
                None => Ok(action@.correlation),
            },
    {
        if !self.state.is_connected() {
            return Err(JoyconError::NotConnected);
        }
        match self.capabilities.validate(&action) {
            Err(e) => {
                return Err(JoyconError::Validation(e));
            },
            Ok(_) => {},
        }
        let correlation: CorrelationId = action.correlation;
        let timeout: u64 = self.capabilities.reply_timeout_ms;
        let deadline: u64 = if now > u64::MAX - timeout {
            u64::MAX
        } else {
            now + timeout
        };
        if !self.input_handler_thread.await_reply(correlation, deadline) {
            return Err(JoyconError::CorrelationInUse);
        }
        let request = ActionRequest {
            action,
            target: self.device_handle.duplicate(),
            enqueued_at: now,
        };
        let queued = self.output.enqueue(request, &self.capabilities);
        Ok(correlation)
    }

    /// Asks the device for `length` bytes of its memory from `address` on.
    ///
    /// The request is validated and enqueued like any action, and the reply
    /// is awaited under `correlation`, which must be free. The caller
    /// collects the reply with [`Self::take_reply`].
    pub fn read_memory(
        &mut self,
        correlation: CorrelationId,
        address: u32,
        length: u8,
        now: u64,
    ) -> (res: Result<CorrelationId, JoyconError>)
        requires
            old(self).wf(),
        ensures
            final(self).wf(),
            final(self)@ == old(self)@.after_request(
                ActionView { correlation, kind: ActionKindView::ReadMemory { address, length } },
                now,
            ),
            res == match old(self)@.request_error(
                ActionView { correlation, kind: ActionKindView::ReadMemory { address, length } },
            ) {
                Some(e) => Err::<CorrelationId, JoyconError>(e),
                None => Ok(correlation),
            },
    {
        self.request(Action { correlation, kind: ActionKind::ReadMemory { address, length } }, now)
    }

    /// Asks the device to write `bytes` into its memory from `address` on,
    /// outside the reserved range.
    ///
    /// The request is validated and enqueued like any action, and the reply
    /// is awaited under `correlation`, which must be free.
    pub fn write_memory(
        &mut self,
        correlation: CorrelationId,
        address: u32,
        bytes: Vec<u8>,
        now: u64,
    ) -> (res: Result<CorrelationId, JoyconError>)
        requires
            old(self).wf(),
        ensures
            final(self).wf(),
            final(self)@ == old(self)@.after_request(
                ActionView {
                    correlation,
                    kind: ActionKindView::WriteMemory {
                        address,
                        bytes: bytes@,
                        unsafe_override: false,
                    },
                },
                now,
            ),
            res == match old(self)@.request_error(
                ActionView {
                    correlation,
                    kind: ActionKindView::WriteMemory {
                        address,
                        bytes: bytes@,
                        unsafe_override: false,
                    },
                },
            ) {
                Some(e) => Err::<CorrelationId, JoyconError>(e),
                None => Ok(correlation),
            },
    {
        self.request(
            Action {
                correlation,
                kind: ActionKind::WriteMemory { address, bytes, unsafe_override: false },
            },
            now,
        )
    }

    /// Asks the device for a fresh battery reading. The reply refreshes the
    /// cached reading when it arrives.
    pub fn refresh_battery(&mut self, correlation: CorrelationId, now: u64) -> (res: Result<
        CorrelationId,
        JoyconError,
    >)
        requires
            old(self).wf(),
        ensures
            final(self).wf(),
            final(self)@ == old(self)@.after_request(
                ActionView { correlation, kind: ActionKindView::QueryBattery },
                now,
            ),
            res == match old(self)@.request_error(
                ActionView { correlation, kind: ActionKindView::QueryBattery },
            ) {
                Some(e) => Err::<CorrelationId, JoyconError>(e),
                None => Ok(correlation),
            },
    {
        self.request(Action { correlation, kind: ActionKind::QueryBattery }, now)
    }

    /// Asks at time `now` for the reply to the request made under
    /// `correlation`.
    ///
    /// `Ok(None)` means that the caller has to wait on; any other answer is
    /// handed out once and frees the correlation id. On an engine that does
    /// not run the answer is never to wait on.
    pub fn take_reply(&mut self, correlation: CorrelationId, now: u64) -> (res: Result<
        Option<InputReport>,
        JoyconError,
    >)
        requires
            old(self).wf(),
        ensures
            final(self).wf(),
            reply_result_view(res) == reply_result(
                reply_of(old(self)@.waiters[correlation as int], now),
            ),
            final(self)@ == (JoyconView {
                waiters: old(self)@.waiters.update(
                    correlation as int,
                    slot_after_poll(old(self)@.waiters[correlation as int], now),
                ),
                ..old(self)@
            }),
            !old(self)@.running() ==> res != Ok::<Option<InputReport>, JoyconError>(None),
    {
        proof {
            self.lemma_wf();
        }
        match self.input_handler_thread.take_reply(correlation, now) {
            Reply::Unknown => Err(JoyconError::UnknownCorrelation),
            Reply::Pending => Ok(None),
            Reply::Ready(report) => Ok(Some(report)),
            Reply::TimedOut => Err(JoyconError::Timeout),
            Reply::Cancelled => Err(JoyconError::Cancelled),
            Reply::TransportFailed => Err(JoyconError::Transport),
        }
    }

    /// Deals with one frame that the input loop read.
    ///
    /// An engine that does not run ignores the frame. A frame that cannot be
    /// decoded is dropped and changes nothing. A decoded report goes to every
    /// handler in registration order, whatever the handlers before returned;
    /// it refreshes the battery reading if it is one, and answers the request
    /// that waits for it. In no case does the state of the engine change, so
    /// the loop goes on with the next frame.
    pub fn on_frame(&mut self, frame: &[u8]) -> (outcome: FrameOutcome)
        requires
            old(self).wf(),
        ensures
            final(self).wf(),
            final(self)@.state == old(self)@.state,
            match outcome {
                FrameOutcome::Ignored => !old(self)@.running() && final(self)@ == old(self)@,
                FrameOutcome::Dropped(e) => {
                    &&& old(self)@.running()
                    &&& decode_spec(frame@) == Err::<InputReportView, DecodeError>(e)
                    &&& final(self)@ == old(self)@
                },
                FrameOutcome::Delivered { report, statuses, answered } => {
                    &&& old(self)@.running()
                    &&& decode_spec(frame@) == Ok::<InputReportView, DecodeError>(report@)
                    &&& statuses@.len() == old(self)@.handlers.len()
                    &&& forall|i: int|
                        0 <= i < statuses@.len() ==> call_ensures(
                            old(self)@.handlers[i],
                            (&report,),
                            #[trigger] statuses@[i],
                        )
                    &&& answered == match report@.correlation() {
                        Some(c) => old(self)@.waiters[c as int] is Waiting,
                        None => false,
                    }
                    &&& final(self)@ == old(self)@.after_report(report@)
                },
            },
    {
        let running = match self.state {
            DeviceState::Connected => true,
            DeviceState::Disconnecting => true,
            _ => false,
        };
        if !running {
            return FrameOutcome::Ignored;
        }
        let outcome = self.input_handler_thread.on_frame(frame);
        match &outcome {
            FrameOutcome::Delivered { report, .. } => {
                match report {
                    InputReport::BatteryVoltage { voltage_mv, charging, .. } => {
                        self.battery = BatteryInfo { voltage_mv: *voltage_mv, charging: *charging };
                    },
                    _ => {},
                }
            },
            _ => {},
        }
        outcome
    }

    /// Ends the engine for good, for the given reason.
    fn halt(&mut self, reason: StopReason)
        requires
            old(self).wf(),
        ensures
            final(self).wf(),
            final(self)@ == old(self)@.after_stop(reason),
    {
        proof {
            self.lemma_wf();
        }
        self.state = DeviceState::Disconnected;
        self.output.stop();
        self.input_handler_thread.stop(reason);
        assert(self@.waiters =~= old(self)@.after_stop(reason).waiters);
    }

    /// Deals with a read from the transport that returned no frame.
    ///
    /// A timeout changes nothing. The loss of the device leaves a running
    /// engine disconnected: its queue is discarded and every request that
    /// waits ends with a transport failure. Returns whether the input loop
    /// goes on.
    pub fn on_read_error(&mut self, error: ReadError) -> (go_on: bool)
        requires
            old(self).wf(),
        ensures
            final(self).wf(),
            final(self)@ == old(self)@.after_read_error(error),
            go_on == final(self)@.running(),
    {
        let running = match self.state {
            DeviceState::Connected => true,
            DeviceState::Disconnecting => true,
            _ => false,
        };
        match error {
            ReadError::Timeout => running,
            ReadError::Disconnected => {
                if running {
                    self.halt(StopReason::TransportFailure);
                }
                false
            },
        }
    }

    /// Decides what the output loop does next, and takes the oldest action
    /// off the queue if there is one to act on.
    ///
    /// The oldest action is validated once more and, if it passes, encoded
    /// for writing; one that does not pass is dropped. An engine on its way
    /// out tells the loop to stop.
    pub fn next_write(&mut self) -> (step: OutputStep)
        requires
            old(self).wf(),
        ensures
            final(self).wf(),
            step@ == next_step(
                old(self)@.state.rank() >= DeviceState::Disconnecting.rank(),
                old(self)@.queue,
                old(self)@.capabilities,
            ),
            final(self)@ == (JoyconView {
                queue: queue_after_step(
                    old(self)@.state.rank() >= DeviceState::Disconnecting.rank(),
                    old(self)@.queue,
                ),
                ..old(self)@
            }),
    {
        self.output.next_write(&self.capabilities)
    }

    /// Takes note of how the last write went.
    ///
    /// A failed write leaves the engine disconnecting and stops the output
    /// loop; nothing is written again, and nothing is retried.
    pub fn write_done(&mut self, ok: bool)
        requires
            old(self).wf(),
        ensures
            final(self).wf(),
            final(self)@ == old(self)@.after_write(ok),
    {
        self.output.write_done(ok);
        if !ok {
            match self.state {
                DeviceState::Discovered => {
                    self.state = DeviceState::Disconnecting;
                },
                DeviceState::Connected => {
                    self.state = DeviceState::Disconnecting;
                },
                _ => {},
            }
        }
    }

    /// Shuts the engine down: it is disconnected, its queue is discarded and
    /// every request that waits ends as cancelled.
    pub fn shutdown(&mut self)
        requires
            old(self).wf(),
        ensures
            final(self).wf(),
            final(self)@ == old(self)@.after_stop(StopReason::Shutdown),
    {
        self.halt(StopReason::Shutdown);
    }
}

} // verus!
