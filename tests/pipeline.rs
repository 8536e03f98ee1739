use std::collections::VecDeque;

use camera_stream::buffer_queue::{BufferQueue, Direction, Owner};
use camera_stream::error::PipelineError;
use camera_stream::pipeline::{Action, CameraCapture, Event, Phase, QueueId};

/// A software double of the three device queues: each completes its queued
/// slots in the order they were queued.
struct SimulatedDevices {
    capture_slots: Vec<Vec<u8>>,
    capture_used: Vec<usize>,
    input_slots: Vec<Vec<u8>>,
    input_used: Vec<usize>,
    output_slots: Vec<Vec<u8>>,
    output_used: Vec<usize>,
    queued: [VecDeque<usize>; 3],
    frame_counter: u8,
    capture_frame_len: usize,
}

fn slot(queue: QueueId) -> usize {
    match queue {
        QueueId::Capture => 0,
        QueueId::EncoderInput => 1,
        QueueId::EncoderOutput => 2,
    }
}

impl SimulatedDevices {
    fn new(capture_depth: usize, capacity: usize, capture_frame_len: usize) -> Self {
        SimulatedDevices {
            capture_slots: vec![vec![0; capacity]; capture_depth],
            capture_used: vec![0; capture_depth],
            input_slots: vec![vec![0; capacity]],
            input_used: vec![0],
            output_slots: vec![vec![0; capacity]],
            output_used: vec![0],
            queued: [VecDeque::new(), VecDeque::new(), VecDeque::new()],
            frame_counter: 0,
            capture_frame_len,
        }
    }

    /// Performs `action`; returns the event to report and, for a delivery,
    /// the encoded bytes.
    fn perform(&mut self, action: Action) -> (Event, Option<Vec<u8>>) {
        match action {
            Action::Dequeue { queue } => {
                let index = self.queued[slot(queue)].pop_front().expect("driver owns no slot");
                let used = match queue {
                    QueueId::Capture => {
                        self.frame_counter = self.frame_counter.wrapping_add(1);
                        let len = self.capture_frame_len;
                        for b in self.capture_slots[index][..len].iter_mut() {
                            *b = self.frame_counter;
                        }
                        self.capture_used[index] = len;
                        len
                    }
                    QueueId::EncoderInput => self.input_used[index],
                    QueueId::EncoderOutput => {
                        let raw_len = self.input_used[0];
                        let first = self.input_slots[0][0];
                        let encoded = [0, 0, 0, 1, 0x65, first, raw_len as u8];
                        self.output_slots[index][..encoded.len()].copy_from_slice(&encoded);
                        self.output_used[index] = encoded.len();
                        encoded.len()
                    }
                };
                (Event::Dequeued { index, used }, None)
            }
            Action::CopyFrame { from, to, length } => {
                let src = self.capture_slots[from].clone();
                camera_stream::frame::copy_frame(&src, &mut self.input_slots[to], length);
                (Event::Performed, None)
            }
            Action::Enqueue { queue, index, used } => {
                if queue == QueueId::EncoderInput {
                    self.input_used[index] = used;
                }
                self.queued[slot(queue)].push_back(index);
                (Event::Performed, None)
            }
            Action::Deliver { index, length } => {
                let out = camera_stream::frame::take_output(&self.output_slots[index], length);
                (Event::Performed, Some(out))
            }
            Action::Done => (Event::Begin, None),
        }
    }
}

fn depth_holds(q: &BufferQueue) -> bool {
    q.driver_count() + q.user_count() == q.depth()
}

fn all_depths_hold(p: &CameraCapture) -> bool {
    depth_holds(p.capture_queue())
        && depth_holds(p.encoder_input_queue())
        && depth_holds(p.encoder_output_queue())
}

fn started(dev: &mut SimulatedDevices) -> CameraCapture {
    let mut p = CameraCapture::new(3, 1, 1, 64, 64);
    assert!(all_depths_hold(&p));
    for action in p.prime() {
        dev.perform(action);
        assert!(all_depths_hold(&p));
    }
    p.start();
    p
}

/// Runs one frame; returns the delivered buffers.
fn take_frame(p: &mut CameraCapture, dev: &mut SimulatedDevices) -> Result<Vec<Vec<u8>>, PipelineError> {
    let mut delivered = Vec::new();
    let mut action = p.step(Event::Begin)?;
    assert!(all_depths_hold(p));
    while action != Action::Done {
        let (event, out) = dev.perform(action);
        if let Some(out) = out {
            delivered.push(out);
        }
        action = p.step(event)?;
        assert!(all_depths_hold(p));
    }
    Ok(delivered)
}

#[test]
fn repeated_frames_keep_queue_depths() {
    let mut dev = SimulatedDevices::new(3, 64, 16);
    let mut p = started(&mut dev);
    for n in 1..=10u8 {
        let frames = take_frame(&mut p, &mut dev).unwrap();
        assert_eq!(frames.len(), 1);
        assert_eq!(frames[0], vec![0, 0, 0, 1, 0x65, n, 16]);
        assert_eq!(p.current_phase(), Phase::Ready);
        assert_eq!(p.capture_queue().driver_count(), 3);
        assert_eq!(p.encoder_input_queue().driver_count(), 1);
        assert_eq!(p.encoder_output_queue().driver_count(), 1);
    }
    p.stop();
    assert_eq!(p.current_phase(), Phase::Idle);
    assert_eq!(p.capture_queue().user_count(), 3);
    assert!(all_depths_hold(&p));
}

#[test]
fn prime_lists_every_slot() {
    let mut p = CameraCapture::new(3, 1, 2, 8, 8);
    let actions = p.prime();
    let expected = vec![
        Action::Enqueue { queue: QueueId::Capture, index: 0, used: 0 },
        Action::Enqueue { queue: QueueId::Capture, index: 1, used: 0 },
        Action::Enqueue { queue: QueueId::Capture, index: 2, used: 0 },
        Action::Enqueue { queue: QueueId::EncoderInput, index: 0, used: 0 },
        Action::Enqueue { queue: QueueId::EncoderOutput, index: 0, used: 0 },
        Action::Enqueue { queue: QueueId::EncoderOutput, index: 1, used: 0 },
    ];
    assert_eq!(actions, expected);
    assert_eq!(p.current_phase(), Phase::Primed);
    assert_eq!(p.capture_queue().driver_count(), 3);
    assert_eq!(p.encoder_output_queue().user_count(), 0);
}

#[test]
fn frame_sequence_of_actions() {
    let mut p = CameraCapture::new(3, 1, 1, 32, 32);
    p.prime();
    p.start();
    assert_eq!(p.step(Event::Begin), Ok(Action::Dequeue { queue: QueueId::EncoderInput }));
    assert_eq!(
        p.step(Event::Dequeued { index: 0, used: 0 }),
        Ok(Action::Dequeue { queue: QueueId::Capture })
    );
    assert_eq!(p.encoder_input_queue().owner_of(0), Owner::User);
    assert_eq!(
        p.step(Event::Dequeued { index: 2, used: 20 }),
        Ok(Action::CopyFrame { from: 2, to: 0, length: 20 })
    );
    assert_eq!(p.capture_queue().owner_of(2), Owner::User);
    assert_eq!(
        p.step(Event::Performed),
        Ok(Action::Enqueue { queue: QueueId::Capture, index: 2, used: 0 })
    );
    assert_eq!(
        p.step(Event::Performed),
        Ok(Action::Enqueue { queue: QueueId::EncoderInput, index: 0, used: 20 })
    );
    assert_eq!(p.step(Event::Performed), Ok(Action::Dequeue { queue: QueueId::EncoderOutput }));
    assert_eq!(
        p.step(Event::Dequeued { index: 0, used: 9 }),
        Ok(Action::Deliver { index: 0, length: 9 })
    );
    assert_eq!(
        p.step(Event::Performed),
        Ok(Action::Enqueue { queue: QueueId::EncoderOutput, index: 0, used: 0 })
    );
    assert_eq!(p.step(Event::Performed), Ok(Action::Done));
    assert_eq!(p.current_phase(), Phase::Ready);
}

#[test]
fn oversized_frame_is_refused() {
    let mut dev = SimulatedDevices::new(3, 64, 40);
    let mut p = CameraCapture::new(3, 1, 1, 32, 64);
    for action in p.prime() {
        dev.perform(action);
    }
    p.start();
    assert_eq!(take_frame(&mut p, &mut dev), Err(PipelineError::FrameTooLarge));
    assert_eq!(p.current_phase(), Phase::Failed);
    assert_eq!(p.step(Event::Begin), Err(PipelineError::Io));
    p.stop();
    assert_eq!(p.current_phase(), Phase::Idle);
}

#[test]
fn unowned_slot_is_an_io_error() {
    let mut p = CameraCapture::new(3, 1, 1, 32, 32);
    p.prime();
    p.start();
    p.step(Event::Begin).unwrap();
    assert_eq!(p.step(Event::Dequeued { index: 1, used: 0 }), Err(PipelineError::Io));
    assert_eq!(p.current_phase(), Phase::Failed);
    assert!(all_depths_hold(&p));
}

#[test]
fn unexpected_event_is_an_io_error() {
    let mut p = CameraCapture::new(3, 1, 1, 32, 32);
    assert_eq!(p.step(Event::Begin), Err(PipelineError::Io));
    let mut p = CameraCapture::new(3, 1, 1, 32, 32);
    p.prime();
    p.start();
    assert_eq!(p.step(Event::Performed), Err(PipelineError::Io));
}

#[test]
fn oversized_output_is_an_io_error() {
    let mut p = CameraCapture::new(1, 1, 1, 32, 8);
    p.prime();
    p.start();
    p.step(Event::Begin).unwrap();
    p.step(Event::Dequeued { index: 0, used: 0 }).unwrap();
    p.step(Event::Dequeued { index: 0, used: 4 }).unwrap();
    p.step(Event::Performed).unwrap();
    p.step(Event::Performed).unwrap();
    p.step(Event::Performed).unwrap();
    assert_eq!(p.step(Event::Dequeued { index: 0, used: 9 }), Err(PipelineError::Io));
}

#[test]
fn queue_ledger_transfers() {
    let mut q = BufferQueue::new(Direction::Input, 2);
    assert_eq!(q.depth(), 2);
    assert_eq!(q.user_count(), 2);
    assert_eq!(q.direction_of(), Direction::Input);
    assert_eq!(q.dequeue(0), Err(PipelineError::Io));
    assert_eq!(q.enqueue(0), Ok(()));
    assert_eq!(q.enqueue(0), Err(PipelineError::Io));
    assert_eq!(q.enqueue(2), Err(PipelineError::Io));
    assert_eq!(q.driver_count(), 1);
    assert_eq!(q.user_count(), 1);
    assert_eq!(q.enqueue(1), Ok(()));
    q.start();
    assert!(q.streaming());
    assert_eq!(q.dequeue(1), Ok(()));
    assert_eq!(q.owner_of(1), Owner::User);
    assert_eq!(q.driver_count() + q.user_count(), 2);
    q.stop();
    assert!(!q.streaming());
    assert_eq!(q.user_count(), 2);
}

#[test]
fn pipeline_error_messages() {
    assert_eq!(PipelineError::FrameTooLarge.message(), "frame larger than the encoder input buffer");
    assert_eq!(PipelineError::Io.message(), "buffer queue I/O error");
    assert_eq!(PipelineError::Capability.message(), "device lacks a required capability");
}
