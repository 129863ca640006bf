use vstd::prelude::*;
use tokio::sync::mpsc::{Receiver, Sender};
use crate::capture::{stop_step, CaptureState};
use crate::error::AudioError;

verus! {

/// Recordings that may wait for the worker at one time.
pub const QUEUE_CAPACITY: usize = 4;

/// The sending half of tokio's bounded channel, carried through unopened.
#[verifier::external_type_specification]
#[verifier::external_body]
#[verifier::reject_recursive_types(T)]
pub struct ExSender<T>(Sender<T>);

/// The receiving half, handed to the worker.
#[verifier::external_type_specification]
#[verifier::external_body]
#[verifier::reject_recursive_types(T)]
pub struct ExReceiver<T>(Receiver<T>);

/// What a non-blocking send reported.
#[derive(Clone, Copy, Debug, PartialEq, Eq, Structural)]
pub enum SendOutcome {
    Queued,
    Full,
    Closed,
}

/// Relies on tokio::sync::mpsc::channel: a bounded channel holding at most
/// `capacity` messages. It panics on a capacity of zero or above its permit
/// limit (`usize::MAX >> 3`); the bound required here stays far below that.
#[verifier::external_body]
fn bounded_channel<T>(capacity: usize) -> (Sender<T>, Receiver<T>)
    requires
        0 < capacity <= 1024,
{
    tokio::sync::mpsc::channel(capacity)
}

/// Relies on tokio::sync::mpsc::Sender::try_send: it never waits, and reports
/// a full channel or a dropped receiver instead of sending. Which of the three
/// happens depends on the receiving task.
#[verifier::external_body]
fn try_send_job<T>(sender: &Sender<T>, job: T) -> (r: SendOutcome) {
    match sender.try_send(job) {
        Ok(()) => SendOutcome::Queued,
        Err(tokio::sync::mpsc::error::TrySendError::Full(_)) => SendOutcome::Full,
        Err(tokio::sync::mpsc::error::TrySendError::Closed(_)) => SendOutcome::Closed,
    }
}

/// The hand-off between the stop path and the single conditioning worker.
pub fn processing_channel<T>() -> (Sender<T>, Receiver<T>) {
    bounded_channel(QUEUE_CAPACITY)
}

/// The answer given to the stop path for a send outcome: a job the queue
/// cannot take, because it is full or its worker has gone, is refused with
/// `QueueFull` and its audio dropped.
pub fn enqueue_result(outcome: SendOutcome) -> (r: Result<(), AudioError>)
    ensures
        r == (if outcome == SendOutcome::Queued {
            Ok(())
        } else {
            Err(AudioError::QueueFull)
        }),
{
    match outcome {
        SendOutcome::Queued => Ok(()),
        SendOutcome::Full => Err(AudioError::QueueFull),
        SendOutcome::Closed => Err(AudioError::QueueFull),
    }
}

/// Offers a recording to the worker without waiting.
pub fn queue_for_processing<S>(sender: &Sender<Vec<S>>, samples: Vec<S>) -> (r: Result<(), AudioError>)
    ensures
        r is Ok || r == Err::<(), AudioError>(AudioError::QueueFull),
{
    let outcome = try_send_job(sender, samples);
    enqueue_result(outcome)
}

/// Stops the session, checks that it recorded something and offers the
/// recording to the worker. A refusal at the second or third step does not undo
/// the stop.
pub fn stop_recording_inner<S>(state: &mut CaptureState<S>, sender: &Sender<Vec<S>>) -> (r: Result<(), AudioError>)
    ensures
        final(state)@ == stop_step(old(state)@).0,
        match stop_step(old(state)@).1 {
            Err(e) => r == Err::<(), AudioError>(e),
            Ok(_) => r is Ok || r == Err::<(), AudioError>(AudioError::QueueFull),
        },
{
    let samples = state.extract_audio_samples()?;
    crate::capture::validate_samples(samples.as_slice())?;
    queue_for_processing(sender, samples)
}

} // verus!
