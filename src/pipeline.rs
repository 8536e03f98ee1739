//! The capture/encode pipeline as a state machine.
//!
//! One frame runs as a fixed sequence of device operations: take back the
//! encoder's input slot, take back a filled capture slot, copy the frame
//! across, hand the capture slot back, submit the encoder input, take back the
//! encoded output, copy it out, and hand the output slot back. The pipeline
//! decides each operation (an `Action`) and keeps the ownership ledger of the
//! three queues; the caller performs the operation on the devices and reports
//! what happened (an `Event`).
use vstd::prelude::*;
use crate::buffer_queue::{all_owned_by, count_owned, lemma_owner_counts, BufferQueue, Direction, Owner};
use crate::error::PipelineError;

verus! {

/// One of the pipeline's three queues.
#[derive(Debug, Clone, Copy, PartialEq, Eq, Structural)]
pub enum QueueId {
    /// The camera's queue of filled frames.
    Capture,
    /// The encoder's queue of raw frames to transcode.
    EncoderInput,
    /// The encoder's queue of encoded output.
    EncoderOutput,
}

/// The next device operation that the caller must perform.
#[derive(Debug, Clone, Copy, PartialEq, Eq, Structural)]
pub enum Action {
    /// Wait until the queue hands back a completed slot, then report it with
    /// `Event::Dequeued`.
    Dequeue { queue: QueueId },
    /// Copy `length` bytes from capture slot `from` into encoder input slot
    /// `to`.
    CopyFrame { from: usize, to: usize, length: usize },
    /// Hand slot `index` of the queue to the driver, with `used` bytes in use
    /// (this matters for the encoder's input only).
    Enqueue { queue: QueueId, index: usize, used: usize },
    /// Copy the first `length` bytes of encoder output slot `index` into a
    /// buffer of the caller's own: that is the encoded frame.
    Deliver { index: usize, length: usize },
    /// The frame is complete.
    Done,
}

/// What the caller reports back.
#[derive(Debug, Clone, Copy, PartialEq, Eq, Structural)]
pub enum Event {
    /// Ask for the next frame.
    Begin,
    /// The queue that was waited on handed back slot `index`, with `used`
    /// bytes filled.
    Dequeued { index: usize, used: usize },
    /// The last copy or enqueue was carried out.
    Performed,
}

/// Where the pipeline stands.
#[derive(Debug, Clone, Copy, PartialEq, Eq, Structural)]
pub enum Phase {
    /// Buffers are allocated and all the user's; nothing streams.
    Idle,
    /// Every slot was handed to the driver; streaming can start.
    Primed,
    /// Streaming, between frames.
    Ready,
    AwaitEncoderInput,
    AwaitCapture { input: usize },
    Copying { capture: usize, input: usize, length: usize },
    RequeueingCapture { input: usize, length: usize },
    Submitting,
    AwaitEncoderOutput,
    Delivering { output: usize },
    RequeueingOutput,
    /// An operation failed or an unexpected event came; only `stop` helps.
    Failed,
}

/// Every slot of `s` is the driver's but slot `i`, which is the user's.
pub open spec fn only_user_at(s: Seq<Owner>, i: int) -> bool {
    &&& 0 <= i < s.len()
    &&& s[i] == Owner::User
    &&& forall|j: int| 0 <= j < s.len() && j != i ==> #[trigger] s[j] == Owner::Driver
}

/// One `Enqueue` action for each slot `0..n` of `queue`, in order.
pub open spec fn enqueue_all(queue: QueueId, n: nat) -> Seq<Action> {
    Seq::new(n, |i: int| Action::Enqueue { queue, index: i as usize, used: 0 })
}

/// Hands every slot of `q`, which are all the user's, to the driver, and
/// appends the matching `Enqueue` actions to `actions`.
fn prime_queue(q: &mut BufferQueue, queue: QueueId, actions: &mut Vec<Action>)
    requires
        all_owned_by(old(q).owners(), Owner::User),
    ensures
        final(q).owners().len() == old(q).owners().len(),
        final(q).direction() == old(q).direction(),
        final(q).is_streaming() == old(q).is_streaming(),
        all_owned_by(final(q).owners(), Owner::Driver),
        final(actions)@ == old(actions)@ + enqueue_all(queue, old(q).owners().len()),
{
    let n = q.depth();
    let mut i: usize = 0;
    while i < n
        invariant
            n == q.owners().len(),
            n == old(q).owners().len(),
            q.direction() == old(q).direction(),
            q.is_streaming() == old(q).is_streaming(),
            i <= n,
            forall|j: int| 0 <= j < i ==> #[trigger] q.owners()[j] == Owner::Driver,
            forall|j: int| i <= j < n ==> #[trigger] q.owners()[j] == Owner::User,
            actions@ == old(actions)@ + enqueue_all(queue, i as nat),
        decreases n - i,
    {
        let res = q.enqueue(i);
        assert(res is Ok);
        actions.push(Action::Enqueue { queue, index: i, used: 0 });
        assert(enqueue_all(queue, i as nat).push(Action::Enqueue { queue, index: i, used: 0 })
            =~= enqueue_all(queue, (i + 1) as nat));
        i = i + 1;
    }
}

/// The three queues of the pipeline.
pub struct CameraCapture {
    capture: BufferQueue,
    encoder_input: BufferQueue,
    encoder_output: BufferQueue,
    input_capacity: usize,
    output_capacity: usize,
    phase: Phase,
}

impl CameraCapture {
    pub closed spec fn capture(&self) -> BufferQueue {
        self.capture
    }

    pub closed spec fn encoder_input(&self) -> BufferQueue {
        self.encoder_input
    }

    pub closed spec fn encoder_output(&self) -> BufferQueue {
        self.encoder_output
    }

    /// Bytes that one encoder input buffer holds.
    pub closed spec fn input_capacity(&self) -> nat {
        self.input_capacity as nat
    }

    /// Bytes that one encoder output buffer holds.
    pub closed spec fn output_capacity(&self) -> nat {
        self.output_capacity as nat
    }

    pub closed spec fn phase(&self) -> Phase {
        self.phase
    }

    pub open spec fn all_driver(&self) -> bool {
        &&& all_owned_by(self.capture().owners(), Owner::Driver)
        &&& all_owned_by(self.encoder_input().owners(), Owner::Driver)
        &&& all_owned_by(self.encoder_output().owners(), Owner::Driver)
    }

    pub open spec fn all_streaming(&self) -> bool {
        &&& self.capture().is_streaming()
        &&& self.encoder_input().is_streaming()
        &&& self.encoder_output().is_streaming()
    }

    /// Ownership and streaming state that each phase stands for.
    pub open spec fn phase_holds(&self) -> bool {
        match self.phase() {
            Phase::Idle => {
                &&& all_owned_by(self.capture().owners(), Owner::User)
                &&& all_owned_by(self.encoder_input().owners(), Owner::User)
                &&& all_owned_by(self.encoder_output().owners(), Owner::User)
                &&& !self.capture().is_streaming()
                &&& !self.encoder_input().is_streaming()
                &&& !self.encoder_output().is_streaming()
            },
            Phase::Primed => {
                &&& self.all_driver()
                &&& !self.capture().is_streaming()
                &&& !self.encoder_input().is_streaming()
                &&& !self.encoder_output().is_streaming()
            },
            Phase::Ready | Phase::AwaitEncoderInput | Phase::Submitting
            | Phase::AwaitEncoderOutput | Phase::RequeueingOutput => {
                &&& self.all_driver()
                &&& self.all_streaming()
            },
            Phase::AwaitCapture { input } => {
                &&& all_owned_by(self.capture().owners(), Owner::Driver)
                &&& only_user_at(self.encoder_input().owners(), input as int)
                &&& all_owned_by(self.encoder_output().owners(), Owner::Driver)
                &&& self.all_streaming()
            },
            Phase::Copying { capture, input, length } => {
                &&& only_user_at(self.capture().owners(), capture as int)
                &&& only_user_at(self.encoder_input().owners(), input as int)
                &&& all_owned_by(self.encoder_output().owners(), Owner::Driver)
                &&& length <= self.input_capacity()
                &&& self.all_streaming()
            },
            Phase::RequeueingCapture { input, length } => {
                &&& all_owned_by(self.capture().owners(), Owner::Driver)
                &&& only_user_at(self.encoder_input().owners(), input as int)
                &&& all_owned_by(self.encoder_output().owners(), Owner::Driver)
                &&& length <= self.input_capacity()
                &&& self.all_streaming()
            },
            Phase::Delivering { output } => {
                &&& all_owned_by(self.capture().owners(), Owner::Driver)
                &&& all_owned_by(self.encoder_input().owners(), Owner::Driver)
                &&& only_user_at(self.encoder_output().owners(), output as int)
                &&& self.all_streaming()
            },
            Phase::Failed => true,
        }
    }

    /// Well-formed: three non-empty queues in their directions, in the state
    /// that the phase stands for.
    pub open spec fn wf(&self) -> bool {
        &&& self.capture().wf()
        &&& self.encoder_input().wf()
        &&& self.encoder_output().wf()
        &&& self.capture().direction() == Direction::Output
        &&& self.encoder_input().direction() == Direction::Input
        &&& self.encoder_output().direction() == Direction::Output
        &&& self.phase_holds()
    }

    /// What never changes: the queues' depths and directions and the buffer
    /// capacities.
    pub open spec fn same_shape(&self, other: &CameraCapture) -> bool {
        &&& self.capture().owners().len() == other.capture().owners().len()
        &&& self.encoder_input().owners().len() == other.encoder_input().owners().len()
        &&& self.encoder_output().owners().len() == other.encoder_output().owners().len()
        &&& self.input_capacity() == other.input_capacity()
        &&& self.output_capacity() == other.output_capacity()
    }

    /// The ledgers of `self` and `other` agree.
    pub open spec fn same_ledger(&self, other: &CameraCapture) -> bool {
        &&& self.capture() == other.capture()
        &&& self.encoder_input() == other.encoder_input()
        &&& self.encoder_output() == other.encoder_output()
    }

    /// Each queue's driver-owned and user-owned slots make up its depth.
    pub open spec fn depths_hold(&self) -> bool {
        &&& count_owned(self.capture().owners(), Owner::Driver) + count_owned(
            self.capture().owners(),
            Owner::User,
        ) == self.capture().owners().len()
        &&& count_owned(self.encoder_input().owners(), Owner::Driver) + count_owned(
            self.encoder_input().owners(),
            Owner::User,
        ) == self.encoder_input().owners().len()
        &&& count_owned(self.encoder_output().owners(), Owner::Driver) + count_owned(
            self.encoder_output().owners(),
            Owner::User,
        ) == self.encoder_output().owners().len()
    }

    /// The pipeline reports `e` and stops in `Failed`, its ledger as `mid`.
    pub open spec fn fails_with(
        &self,
        mid: &CameraCapture,
        r: Result<Action, PipelineError>,
        e: PipelineError,
    ) -> bool {
        &&& r == Err::<Action, PipelineError>(e)
        &&& self.phase() == Phase::Failed
        &&& self.same_ledger(mid)
    }

    /// `self` is `pre` with slot `index` of `queue` handed to `owner`, the
    /// other queues untouched.
    pub open spec fn moved_slot(
        &self,
        pre: &CameraCapture,
        queue: QueueId,
        index: int,
        owner: Owner,
    ) -> bool {
        match queue {
            QueueId::Capture => {
                &&& self.capture().owners() == pre.capture().owners().update(index, owner)
                &&& self.encoder_input() == pre.encoder_input()
                &&& self.encoder_output() == pre.encoder_output()
            },
            QueueId::EncoderInput => {
                &&& self.capture() == pre.capture()
                &&& self.encoder_input().owners() == pre.encoder_input().owners().update(
                    index,
                    owner,
                )
                &&& self.encoder_output() == pre.encoder_output()
            },
            QueueId::EncoderOutput => {
                &&& self.capture() == pre.capture()
                &&& self.encoder_input() == pre.encoder_input()
                &&& self.encoder_output().owners() == pre.encoder_output().owners().update(
                    index,
                    owner,
                )
            },
        }
    }

    /// Taking back slot `index` of `queue`, reported by the device, is
    /// consistent with the ledger: the driver holds that slot.
    pub open spec fn driver_holds(&self, queue: QueueId, index: int) -> bool {
        let owners = match queue {
            QueueId::Capture => self.capture().owners(),
            QueueId::EncoderInput => self.encoder_input().owners(),
            QueueId::EncoderOutput => self.encoder_output().owners(),
        };
        0 <= index < owners.len() && owners[index] == Owner::Driver
    }

    /// One step of a frame: from `pre`, on `event`, the pipeline becomes
    /// `self` and answers `r`.
    pub open spec fn stepped_from(
        &self,
        pre: &CameraCapture,
        event: Event,
        r: Result<Action, PipelineError>,
    ) -> bool {
        match (pre.phase(), event) {
            (Phase::Ready, Event::Begin) => {
                &&& r == Ok::<Action, PipelineError>(
                    Action::Dequeue { queue: QueueId::EncoderInput },
                )
                &&& self.phase() == Phase::AwaitEncoderInput
                &&& self.same_ledger(pre)
            },
            (Phase::AwaitEncoderInput, Event::Dequeued { index, used }) => {
                if pre.driver_holds(QueueId::EncoderInput, index as int) {
                    &&& r == Ok::<Action, PipelineError>(
                        Action::Dequeue { queue: QueueId::Capture },
                    )
                    &&& self.phase() == Phase::AwaitCapture { input: index }
                    &&& self.moved_slot(pre, QueueId::EncoderInput, index as int, Owner::User)
                } else {
                    self.fails_with(pre, r, PipelineError::Io)
                }
            },
            (Phase::AwaitCapture { input }, Event::Dequeued { index, used }) => {
                if !pre.driver_holds(QueueId::Capture, index as int) {
                    self.fails_with(pre, r, PipelineError::Io)
                } else if used > pre.input_capacity() {
                    &&& r == Err::<Action, PipelineError>(PipelineError::FrameTooLarge)
                    &&& self.phase() == Phase::Failed
                    &&& self.moved_slot(pre, QueueId::Capture, index as int, Owner::User)
                } else {
                    &&& r == Ok::<Action, PipelineError>(
                        Action::CopyFrame { from: index, to: input, length: used },
                    )
                    &&& self.phase() == Phase::Copying { capture: index, input, length: used }
                    &&& self.moved_slot(pre, QueueId::Capture, index as int, Owner::User)
                }
            },
            (Phase::Copying { capture, input, length }, Event::Performed) => {
                &&& r == Ok::<Action, PipelineError>(
                    Action::Enqueue { queue: QueueId::Capture, index: capture, used: 0 },
                )
                &&& self.phase() == Phase::RequeueingCapture { input, length }
                &&& self.moved_slot(pre, QueueId::Capture, capture as int, Owner::Driver)
            },
            (Phase::RequeueingCapture { input, length }, Event::Performed) => {
                &&& r == Ok::<Action, PipelineError>(
                    Action::Enqueue { queue: QueueId::EncoderInput, index: input, used: length },
                )
                &&& self.phase() == Phase::Submitting
                &&& self.moved_slot(pre, QueueId::EncoderInput, input as int, Owner::Driver)
            },
            (Phase::Submitting, Event::Performed) => {
                &&& r == Ok::<Action, PipelineError>(
                    Action::Dequeue { queue: QueueId::EncoderOutput },
                )
                &&& self.phase() == Phase::AwaitEncoderOutput
                &&& self.same_ledger(pre)
            },
            (Phase::AwaitEncoderOutput, Event::Dequeued { index, used }) => {
                if !pre.driver_holds(QueueId::EncoderOutput, index as int) {
                    self.fails_with(pre, r, PipelineError::Io)
                } else if used > pre.output_capacity() {
                    &&& r == Err::<Action, PipelineError>(PipelineError::Io)
                    &&& self.phase() == Phase::Failed
                    &&& self.moved_slot(pre, QueueId::EncoderOutput, index as int, Owner::User)
                } else {
                    &&& r == Ok::<Action, PipelineError>(
                        Action::Deliver { index, length: used },
                    )
                    &&& self.phase() == Phase::Delivering { output: index }
                    &&& self.moved_slot(pre, QueueId::EncoderOutput, index as int, Owner::User)
                }
            },
            (Phase::Delivering { output }, Event::Performed) => {
                &&& r == Ok::<Action, PipelineError>(
                    Action::Enqueue { queue: QueueId::EncoderOutput, index: output, used: 0 },
                )
                &&& self.phase() == Phase::RequeueingOutput
                &&& self.moved_slot(pre, QueueId::EncoderOutput, output as int, Owner::Driver)
            },
            (Phase::RequeueingOutput, Event::Performed) => {
                &&& r == Ok::<Action, PipelineError>(Action::Done)
                &&& self.phase() == Phase::Ready
                &&& self.same_ledger(pre)
            },
            _ => self.fails_with(pre, r, PipelineError::Io),
        }
    }

    /// Freshly allocated queues of the given depths; every slot is the user's.
    /// `input_capacity` and `output_capacity` are the byte sizes of one encoder
    /// input buffer and one encoder output buffer.
    pub fn new(
        capture_depth: usize,
        input_depth: usize,
        output_depth: usize,
        input_capacity: usize,
        output_capacity: usize,
    ) -> (r: Self)
        requires
            capture_depth >= 1,
            input_depth >= 1,
            output_depth >= 1,
        ensures
            r.wf(),
            r.phase() == Phase::Idle,
            r.capture().owners().len() == capture_depth,
            r.encoder_input().owners().len() == input_depth,
            r.encoder_output().owners().len() == output_depth,
            r.input_capacity() == input_capacity,
            r.output_capacity() == output_capacity,
    {
        CameraCapture {
            capture: BufferQueue::new(Direction::Output, capture_depth),
            encoder_input: BufferQueue::new(Direction::Input, input_depth),
            encoder_output: BufferQueue::new(Direction::Output, output_depth),
            input_capacity,
            output_capacity,
            phase: Phase::Idle,
        }
    }

    /// Hands every slot of every queue to the driver, as the devices need
    /// before streaming starts. Returns the enqueues to perform, capture slots
    /// first, then encoder input slots, then encoder output slots.
    pub fn prime(&mut self) -> (r: Vec<Action>)
        requires
            old(self).wf(),
            old(self).phase() == Phase::Idle,
        ensures
            final(self).wf(),
            final(self).same_shape(old(self)),
            final(self).phase() == Phase::Primed,
            r@ == enqueue_all(QueueId::Capture, old(self).capture().owners().len())
                + enqueue_all(QueueId::EncoderInput, old(self).encoder_input().owners().len())
                + enqueue_all(QueueId::EncoderOutput, old(self).encoder_output().owners().len()),
    {
        let mut actions: Vec<Action> = Vec::new();
        prime_queue(&mut self.capture, QueueId::Capture, &mut actions);
        prime_queue(&mut self.encoder_input, QueueId::EncoderInput, &mut actions);
        prime_queue(&mut self.encoder_output, QueueId::EncoderOutput, &mut actions);
        self.phase = Phase::Primed;
        actions
    }

    /// Starts streaming on all three queues.
    pub fn start(&mut self)
        requires
            old(self).wf(),
            old(self).phase() == Phase::Primed,
        ensures
            final(self).wf(),
            final(self).same_shape(old(self)),
            final(self).phase() == Phase::Ready,
            final(self).all_driver(),
            final(self).all_streaming(),
    {
        self.capture.start();
        self.encoder_input.start();
        self.encoder_output.start();
        self.phase = Phase::Ready;
    }

    /// Stops streaming on all three queues, from any phase: the driver gives up
    /// every slot, in flight or not.
    pub fn stop(&mut self)
        requires
            old(self).wf(),
        ensures
            final(self).wf(),
            final(self).same_shape(old(self)),
            final(self).phase() == Phase::Idle,
    {
        self.capture.stop();
        self.encoder_input.stop();
        self.encoder_output.stop();
        self.phase = Phase::Idle;
    }

    /// Advances the current frame by one event, and returns the next action or
    /// the error that ends the pipeline.
    pub fn step(&mut self, event: Event) -> (r: Result<Action, PipelineError>)
        requires
            old(self).wf(),
        ensures
            final(self).wf(),
            final(self).same_shape(old(self)),
            final(self).stepped_from(old(self), event, r),
    {
        match (self.phase, event) {
            (Phase::Ready, Event::Begin) => {
                self.phase = Phase::AwaitEncoderInput;
                Ok(Action::Dequeue { queue: QueueId::EncoderInput })
            },
            (Phase::AwaitEncoderInput, Event::Dequeued { index, used }) => {
                match self.encoder_input.dequeue(index) {
                    Ok(()) => {
                        self.phase = Phase::AwaitCapture { input: index };
                        Ok(Action::Dequeue { queue: QueueId::Capture })
                    },
                    Err(e) => self.fail(e),
                }
            },
            (Phase::AwaitCapture { input }, Event::Dequeued { index, used }) => {
                match self.capture.dequeue(index) {
                    Ok(()) => {
                        if used > self.input_capacity {
                            self.phase = Phase::Failed;
                            Err(PipelineError::FrameTooLarge)
                        } else {
                            self.phase = Phase::Copying { capture: index, input, length: used };
                            Ok(Action::CopyFrame { from: index, to: input, length: used })
                        }
                    },
                    Err(e) => self.fail(e),
                }
            },
            (Phase::Copying { capture, input, length }, Event::Performed) => {
                let res = self.capture.enqueue(capture);
                assert(res is Ok);
                self.phase = Phase::RequeueingCapture { input, length };
                Ok(Action::Enqueue { queue: QueueId::Capture, index: capture, used: 0 })
            },
            (Phase::RequeueingCapture { input, length }, Event::Performed) => {
                let res = self.encoder_input.enqueue(input);
                assert(res is Ok);
                self.phase = Phase::Submitting;
                Ok(Action::Enqueue { queue: QueueId::EncoderInput, index: input, used: length })
            },
            (Phase::Submitting, Event::Performed) => {
                self.phase = Phase::AwaitEncoderOutput;
                Ok(Action::Dequeue { queue: QueueId::EncoderOutput })
            },
            (Phase::AwaitEncoderOutput, Event::Dequeued { index, used }) => {
                match self.encoder_output.dequeue(index) {
                    Ok(()) => {
                        if used > self.output_capacity {
                            self.phase = Phase::Failed;
                            Err(PipelineError::Io)
                        } else {
                            self.phase = Phase::Delivering { output: index };
                            Ok(Action::Deliver { index, length: used })
                        }
                    },
                    Err(e) => self.fail(e),
                }
            },
            (Phase::Delivering { output }, Event::Performed) => {
                let res = self.encoder_output.enqueue(output);
                assert(res is Ok);
                self.phase = Phase::RequeueingOutput;
                Ok(Action::Enqueue { queue: QueueId::EncoderOutput, index: output, used: 0 })
            },
            (Phase::RequeueingOutput, Event::Performed) => {
                self.phase = Phase::Ready;
                Ok(Action::Done)
            },
            _ => self.fail(PipelineError::Io),
        }
    }

    /// Enters `Failed` and reports `e`.
    fn fail(&mut self, e: PipelineError) -> (r: Result<Action, PipelineError>)
        ensures
            final(self).phase() == Phase::Failed,
            final(self).same_ledger(old(self)),
            final(self).same_shape(old(self)),
            final(self).input_capacity() == old(self).input_capacity(),
            r == Err::<Action, PipelineError>(e),
    {
        self.phase = Phase::Failed;
        Err(e)
    }

    pub fn current_phase(&self) -> (r: Phase)
        ensures
            r == self.phase(),
    {
        self.phase
    }

    pub fn capture_queue(&self) -> (r: &BufferQueue)
        ensures
            *r == self.capture(),
    {
        &self.capture
    }

    pub fn encoder_input_queue(&self) -> (r: &BufferQueue)
        ensures
            *r == self.encoder_input(),
    {
        &self.encoder_input
    }

    pub fn encoder_output_queue(&self) -> (r: &BufferQueue)
        ensures
            *r == self.encoder_output(),
    {
        &self.encoder_output
    }
}

/// At every point of the pipeline's life, each queue's driver-owned and
/// user-owned slots add up to the queue's configured depth.
pub proof fn lemma_pipeline_depths(p: CameraCapture)
    ensures
        p.depths_hold(),
{
    lemma_owner_counts(p.capture().owners());
    lemma_owner_counts(p.encoder_input().owners());
    lemma_owner_counts(p.encoder_output().owners());
}

} // verus!
