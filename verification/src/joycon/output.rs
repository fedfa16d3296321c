//! The output dispatcher: the per-device queue of actions and the decision
//! what to write next. Actions leave in the order in which they came.

use vstd::prelude::*;
use crate::joycon::action::{ActionRequest, ActionRequestView, ActionView};
use crate::joycon::codec::{encode, encode_spec, fits_frame, EncodedFrame};
use crate::joycon::model::CorrelationId;
use crate::joycon::validator::{DeviceCapabilities, ValidationError};

verus! {

/// What the output loop does next.
#[derive(Debug, Clone, PartialEq, Eq)]
pub enum OutputStep {
    /// The queue is empty: wait until an action is enqueued.
    Idle,
    /// Write this frame, then report how the write went.
    Write(EncodedFrame),
    /// The oldest action no longer passed validation and was dropped.
    Rejected(ValidationError),
    /// The dispatcher was stopped: leave the loop.
    Stopped,
}

/// What an [`OutputStep`] stands for.
pub enum OutputStepView {
    Idle,
    Write(Seq<u8>),
    Rejected(ValidationError),
    Stopped,
}

impl View for OutputStep {
    type V = OutputStepView;

    open spec fn view(&self) -> OutputStepView {
        match *self {
            OutputStep::Idle => OutputStepView::Idle,
            OutputStep::Write(frame) => OutputStepView::Write(frame@),
            OutputStep::Rejected(e) => OutputStepView::Rejected(e),
            OutputStep::Stopped => OutputStepView::Stopped,
        }
    }
}

/// What is done with the request at the head of the queue: it is written if
/// it passes validation, and dropped with the validator's complaint if not.
pub open spec fn step_for(head: ActionRequestView, caps: DeviceCapabilities) -> OutputStepView {
    match caps.validation_result(head.action) {
        Ok(_) => OutputStepView::Write(encode_spec(head.action)),
        Err(e) => OutputStepView::Rejected(e),
    }
}

/// The step that a dispatcher in the given state takes.
pub open spec fn next_step(
    stopped: bool,
    queue: Seq<ActionRequestView>,
    caps: DeviceCapabilities,
) -> OutputStepView {
    if stopped {
        OutputStepView::Stopped
    } else if queue.len() == 0 {
        OutputStepView::Idle
    } else {
        step_for(queue[0], caps)
    }
}

/// The queue that the step leaves behind: the head is gone if there was one
/// and the dispatcher runs.
pub open spec fn queue_after_step(stopped: bool, queue: Seq<ActionRequestView>) -> Seq<
    ActionRequestView,
> {
    if stopped || queue.len() == 0 {
        queue
    } else {
        queue.drop_first()
    }
}

/// The frames that draining the queue writes, in the order of the writes.
pub open spec fn writes_of(queue: Seq<ActionRequestView>, caps: DeviceCapabilities) -> Seq<
    Seq<u8>,
>
    decreases queue.len(),
{
    if queue.len() == 0 {
        Seq::empty()
    } else {
        match step_for(queue[0], caps) {
            OutputStepView::Write(frame) => seq![frame] + writes_of(queue.drop_first(), caps),
            _ => writes_of(queue.drop_first(), caps),
        }
    }
}

/// Draining a queue of valid requests writes one frame for each request, in
/// the order in which the requests were enqueued.
pub proof fn lemma_writes_follow_queue_order(
    queue: Seq<ActionRequestView>,
    caps: DeviceCapabilities,
)
    requires
        forall|i: int| 0 <= i < queue.len() ==> caps.within_bounds(#[trigger] queue[i].action),
    ensures
        writes_of(queue, caps).len() == queue.len(),
        forall|i: int|
            0 <= i < queue.len() ==> #[trigger] writes_of(queue, caps)[i] == encode_spec(
                queue[i].action,
            ),
    decreases queue.len(),
{
    if queue.len() > 0 {
        let rest = queue.drop_first();
        caps.lemma_valid_iff_within_bounds(queue[0].action);
        assert forall|i: int| 0 <= i < rest.len() implies caps.within_bounds(
            #[trigger] rest[i].action,
        ) by {
            assert(rest[i] == queue[i + 1]);
        }
        lemma_writes_follow_queue_order(rest, caps);
        assert forall|i: int| 0 <= i < queue.len() implies #[trigger] writes_of(queue, caps)[i]
            == encode_spec(queue[i].action) by {
            if i > 0 {
                assert(writes_of(queue, caps)[i] == writes_of(rest, caps)[i - 1]);
                assert(rest[i - 1] == queue[i]);
            }
        }
    }
}

/// Under well-formed limits every action within bounds fits a frame.
pub proof fn lemma_valid_fits_frame(caps: DeviceCapabilities, action: ActionView)
    requires
        caps.wf(),
        caps.within_bounds(action),
    ensures
        fits_frame(action),
{
}

/// What a run of frames stands for.
pub open spec fn frames_view(frames: Seq<EncodedFrame>) -> Seq<Seq<u8>> {
    Seq::new(frames.len(), |i: int| frames[i]@)
}

/// The queue of one device and whether its loop still runs.
pub struct OutputDispatcher {
    queue: Vec<ActionRequest>,
    stopped: bool,
}

impl OutputDispatcher {
    /// The requests that wait, oldest first.
    pub closed spec fn queue(&self) -> Seq<ActionRequestView> {
        Seq::new(self.queue@.len(), |i: int| self.queue@[i]@)
    }

    /// The loop was told to stop.
    pub closed spec fn stopped(&self) -> bool {
        self.stopped
    }

    /// A running dispatcher with nothing queued.
    pub fn new() -> (out: OutputDispatcher)
        ensures
            out.queue() == Seq::<ActionRequestView>::empty(),
            !out.stopped(),
    {
        let out = OutputDispatcher { queue: Vec::new(), stopped: false };
        assert(out.queue() =~= Seq::<ActionRequestView>::empty());
        out
    }

    /// Number of requests that wait.
    pub fn len(&self) -> (n: usize)
        ensures
            n == self.queue().len(),
    {
        self.queue.len()
    }

    /// Tells whether the loop was told to stop.
    pub fn is_stopped(&self) -> (yes: bool)
        ensures
            yes == self.stopped(),
    {
        self.stopped
    }

    /// Validates a request and appends it to the queue.
    ///
    /// A request that fails validation is handed back as the validator's
    /// complaint and never reaches the queue.
    pub fn enqueue(&mut self, request: ActionRequest, caps: &DeviceCapabilities) -> (res: Result<
        CorrelationId,
        ValidationError,
    >)
        ensures
            final(self).stopped() == old(self).stopped(),
            match caps.validation_result(request@.action) {
                Ok(_) => {
                    &&& res == Ok::<CorrelationId, ValidationError>(request@.action.correlation)
                    &&& final(self).queue() == old(self).queue().push(request@)
                },
                Err(e) => {
                    &&& res == Err::<CorrelationId, ValidationError>(e)
                    &&& final(self).queue() == old(self).queue()
                },
            },
    {
        match caps.validate(&request.action) {
            Ok(_) => {
                let correlation: CorrelationId = request.action.correlation;
                self.queue.push(request);
                assert(self.queue() =~= old(self).queue().push(request@));
                Ok(correlation)
            },
            Err(e) => Err(e),
        }
    }

    /// Decides what the output loop does next, and takes the oldest request
    /// off the queue if there is one to act on.
    pub fn next_write(&mut self, caps: &DeviceCapabilities) -> (step: OutputStep)
        requires
            caps.wf(),
        ensures
            step@ == next_step(old(self).stopped(), old(self).queue(), *caps),
            final(self).queue() == queue_after_step(old(self).stopped(), old(self).queue()),
            final(self).stopped() == old(self).stopped(),
    {
        if self.stopped {
            return OutputStep::Stopped;
        }
        if self.queue.len() == 0 {
            return OutputStep::Idle;
        }
        let head = self.queue.remove(0);
        assert(self.queue() =~= old(self).queue().drop_first());
        assert(head@ == old(self).queue()[0]);
        match caps.validate(&head.action) {
            Ok(_) => {
                proof {
                    lemma_valid_fits_frame(*caps, head@.action);
                }
                OutputStep::Write(encode(&head.action))
            },
            Err(e) => OutputStep::Rejected(e),
        }
    }

    /// Takes note of how the last write went: a failed write stops the loop.
    pub fn write_done(&mut self, ok: bool)
        ensures
            final(self).stopped() == (old(self).stopped() || !ok),
            final(self).queue() == old(self).queue(),
    {
        if !ok {
            self.stopped = true;
        }
    }

    /// Stops the loop and discards what still waits.
    pub fn stop(&mut self)
        ensures
            final(self).stopped(),
            final(self).queue() == Seq::<ActionRequestView>::empty(),
    {
        self.stopped = true;
        self.queue.clear();
        assert(self.queue() =~= Seq::<ActionRequestView>::empty());
    }

    /// Takes every waiting request off the queue, oldest first, and returns
    /// the frames to write in that order. A stopped dispatcher hands out
    /// nothing and keeps its queue.
    pub fn drain(&mut self, caps: &DeviceCapabilities) -> (frames: Vec<EncodedFrame>)
        requires
            caps.wf(),
        ensures
            final(self).stopped() == old(self).stopped(),
            old(self).stopped() ==> frames@.len() == 0 && final(self).queue() == old(
                self,
            ).queue(),
            !old(self).stopped() ==> frames_view(frames@) == writes_of(old(self).queue(), *caps)
                && final(self).queue().len() == 0,
    {
        let mut frames: Vec<EncodedFrame> = Vec::new();
        if self.stopped {
            return frames;
        }
        assert(frames_view(frames@) =~= Seq::<Seq<u8>>::empty());
        while self.queue.len() > 0
            invariant
                caps.wf(),
                !self.stopped(),
                frames_view(frames@) + writes_of(self.queue(), *caps) == writes_of(
                    old(self).queue(),
                    *caps,
                ),
            decreases self.queue().len(),
        {
            let ghost before = self.queue();
            let ghost written = frames_view(frames@);
            let step = self.next_write(caps);
            match step {
                OutputStep::Write(frame) => {
                    frames.push(frame);
                    assert(frames_view(frames@) =~= written + seq![frame@]);
                    assert(written + seq![frame@] + writes_of(self.queue(), *caps) =~= written
                        + writes_of(before, *caps));
                },
                _ => {},
            }
        }
        assert(frames_view(frames@) + Seq::<Seq<u8>>::empty() =~= frames_view(frames@));
        frames
    }
}

} // verus!
