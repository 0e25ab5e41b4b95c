//! A run as a whole: its configuration, the channel between its two
//! drivers, and what the run comes to once a driver has ended.

use crate::capture::{capture_error_text, monitor_name, plan_source, CaptureError, SourcePlan};
use crate::channel::FRAME_CHANNEL_CAPACITY;
use crate::config::{MoqConfig, PipelineConfig};
use crate::frame::Frame;
use crate::publish::{
    publish_error_text, publish_start, PublishAction, PublishError, PublishState,
};
use tokio::sync::mpsc::{Receiver, Sender};
use vstd::prelude::*;
use vstd::string::StringExecFns;

verus! {

/// `tokio::sync::mpsc::Sender`, the sending half of a bounded channel.
#[verifier::external_type_specification]
#[verifier::external_body]
#[verifier::reject_recursive_types(T)]
pub struct ExSender<T>(Sender<T>);

/// `tokio::sync::mpsc::Receiver`, the receiving half of a bounded channel.
#[verifier::external_type_specification]
#[verifier::external_body]
#[verifier::reject_recursive_types(T)]
pub struct ExReceiver<T>(Receiver<T>);

/// The number of frames that the channel behind a sending half was made
/// to hold, which `Sender::max_capacity` tells.
pub uninterp spec fn sender_bound(sender: Sender<Frame>) -> nat;

/// The largest capacity that a channel can be made with.
pub open spec fn largest_capacity() -> nat {
    (usize::MAX / 8) as nat
}

/// `tokio::sync::mpsc::channel`: the two halves of a new channel that
/// holds up to `capacity` frames. It panics on a capacity of zero and on
/// one above an eighth of the address space, which `requires` leaves out.
#[verifier::external_body]
fn bounded_channel(capacity: usize) -> (halves: (Sender<Frame>, Receiver<Frame>))
    requires
        1 <= capacity <= largest_capacity(),
    ensures
        sender_bound(halves.0) == capacity,
{
    tokio::sync::mpsc::channel(capacity)
}

/// The two halves of a new frame channel that holds up to `capacity`
/// frames; none for a capacity that no channel can have.
pub fn open_frame_channel(capacity: usize) -> (halves: Option<(Sender<Frame>, Receiver<Frame>)>)
    ensures
        1 <= capacity <= largest_capacity() <==> halves is Some,
        halves matches Some(pair) ==> sender_bound(pair.0) == capacity,
{
    if 1 <= capacity && capacity <= usize::MAX / 8 {
        Some(bounded_channel(capacity))
    } else {
        None
    }
}

/// One of the two drivers.
#[derive(Clone, Copy, Debug, PartialEq, Eq, Structural)]
pub enum Driver {
    Capture,
    Publish,
}

/// Why a run failed.
#[derive(Debug, PartialEq, Eq)]
pub enum RunError {
    /// The capture driver gave up.
    Capture(CaptureError),
    /// The publish driver gave up.
    Publish(PublishError),
    /// A driver did not come to an end of its own.
    Crashed { driver: Driver, reason: String },
    /// The run was told of something that cannot happen in its state.
    OutOfTurn,
}

/// The text shown for a failed run.
pub open spec fn run_error_text(error: RunError) -> Seq<char> {
    match error {
        RunError::Capture(cause) => capture_error_text(cause),
        RunError::Publish(cause) => publish_error_text(cause),
        RunError::Crashed { driver, reason } => match driver {
            Driver::Capture => "GStreamer pipeline error: "@ + reason@,
            Driver::Publish => "MoQ publisher error: "@ + reason@,
        },
        RunError::OutOfTurn => "Run used out of turn"@,
    }
}

impl RunError {
    /// The text shown for this error.
    pub fn message(&self) -> (text: String)
        ensures
            text@ == run_error_text(*self),
    {
        match self {
            RunError::Capture(cause) => cause.message(),
            RunError::Publish(cause) => cause.message(),
            RunError::Crashed { driver, reason } => match driver {
                Driver::Capture => String::from_str("GStreamer pipeline error: ").concat(
                    reason.as_str(),
                ),
                Driver::Publish => String::from_str("MoQ publisher error: ").concat(
                    reason.as_str(),
                ),
            },
            RunError::OutOfTurn => String::from_str("Run used out of turn"),
        }
    }
}

/// How a driver ended.
#[derive(Debug, PartialEq, Eq)]
pub enum DriverExit {
    /// The capture driver returned.
    Capture(Result<(), CaptureError>),
    /// The publish driver returned.
    Publish(Result<(), PublishError>),
    /// A driver panicked or was cancelled.
    Crashed { driver: Driver, reason: String },
}

/// What to do once a driver has ended.
#[derive(Debug, PartialEq, Eq)]
pub enum RunAction {
    /// Capture is over: wait for the publish driver to drain the channel.
    AwaitPublish,
    /// End the run with this result.
    Finish(Result<(), RunError>),
}

/// Where the run stands.
#[derive(Clone, Copy, Debug, PartialEq, Eq, Structural)]
pub enum RunState {
    /// Both drivers are running.
    Racing,
    /// The capture driver has ended cleanly, the publish driver runs on.
    AwaitingPublish,
    /// The run is over.
    Done,
}

/// The result of a run that ends with the publish driver's result.
pub open spec fn publish_result(result: Result<(), PublishError>) -> Result<(), RunError> {
    match result {
        Ok(_) => Ok(()),
        Err(error) => Err(RunError::Publish(error)),
    }
}

/// The run's next state and action when a driver has ended.
pub open spec fn run_step(state: RunState, exit: DriverExit) -> (RunState, RunAction) {
    match state {
        RunState::Racing => match exit {
            DriverExit::Capture(Ok(_)) => (RunState::AwaitingPublish, RunAction::AwaitPublish),
            DriverExit::Capture(Err(error)) => (
                RunState::Done,
                RunAction::Finish(Err(RunError::Capture(error))),
            ),
            DriverExit::Publish(result) => (
                RunState::Done,
                RunAction::Finish(publish_result(result)),
            ),
            DriverExit::Crashed { driver, reason } => (
                RunState::Done,
                RunAction::Finish(Err(RunError::Crashed { driver, reason })),
            ),
        },
        RunState::AwaitingPublish => match exit {
            DriverExit::Capture(_) => (RunState::Done, RunAction::Finish(Err(RunError::OutOfTurn))),
            DriverExit::Publish(result) => (
                RunState::Done,
                RunAction::Finish(publish_result(result)),
            ),
            DriverExit::Crashed { driver, reason } => (
                RunState::Done,
                RunAction::Finish(Err(RunError::Crashed { driver, reason })),
            ),
        },
        RunState::Done => (RunState::Done, RunAction::Finish(Err(RunError::OutOfTurn))),
    }
}

impl RunState {
    /// The state of a run whose two drivers have just been started.
    pub fn new() -> (state: RunState)
        ensures
            state == RunState::Racing,
    {
        RunState::Racing
    }

    /// The next state and what to do, when a driver has ended. The first
    /// driver to fail decides the run: it ends at once with that failure.
    /// A clean end of capture leaves the publish driver to forward what
    /// is still queued, and the run then ends as that driver does. A
    /// clean end of the publish driver ends the run cleanly.
    pub fn advance(self, exit: DriverExit) -> (next: (RunState, RunAction))
        ensures
            next == run_step(self, exit),
    {
        match self {
            RunState::Racing => match exit {
                DriverExit::Capture(result) => match result {
                    Ok(_) => (RunState::AwaitingPublish, RunAction::AwaitPublish),
                    Err(error) => (
                        RunState::Done,
                        RunAction::Finish(Err(RunError::Capture(error))),
                    ),
                },
                DriverExit::Publish(result) => (
                    RunState::Done,
                    RunAction::Finish(publish_outcome(result)),
                ),
                DriverExit::Crashed { driver, reason } => (
                    RunState::Done,
                    RunAction::Finish(Err(RunError::Crashed { driver, reason })),
                ),
            },
            RunState::AwaitingPublish => match exit {
                DriverExit::Capture(_) => (
                    RunState::Done,
                    RunAction::Finish(Err(RunError::OutOfTurn)),
                ),
                DriverExit::Publish(result) => (
                    RunState::Done,
                    RunAction::Finish(publish_outcome(result)),
                ),
                DriverExit::Crashed { driver, reason } => (
                    RunState::Done,
                    RunAction::Finish(Err(RunError::Crashed { driver, reason })),
                ),
            },
            RunState::Done => (RunState::Done, RunAction::Finish(Err(RunError::OutOfTurn))),
        }
    }
}

/// The result of a run that ends with the publish driver's result.
pub fn publish_outcome(result: Result<(), PublishError>) -> (outcome: Result<(), RunError>)
    ensures
        outcome == publish_result(result),
{
    match result {
        Ok(_) => Ok(()),
        Err(error) => Err(RunError::Publish(error)),
    }
}

/// A failure is never passed over. Whichever driver fails first, the run
/// ends with that very failure; a run only ends cleanly on a clean end of
/// the publish driver; and a publish driver that could not say where to
/// connect makes the run fail with its error.
pub proof fn lemma_first_failure_ends_run(
    state: RunState,
    exit: DriverExit,
    capture_error: CaptureError,
    publish_error: PublishError,
    config: MoqConfig,
)
    ensures
        run_step(RunState::Racing, DriverExit::Capture(Err(capture_error))) == (
            RunState::Done,
            RunAction::Finish(Err(RunError::Capture(capture_error))),
        ),
        state != RunState::Done ==> run_step(state, DriverExit::Publish(Err(publish_error))) == (
            RunState::Done,
            RunAction::Finish(Err(RunError::Publish(publish_error))),
        ),
        run_step(state, exit).1 matches RunAction::Finish(Ok(_)) ==> state != RunState::Done
            && exit matches DriverExit::Publish(Ok(_)),
        run_step(state, exit).1 is AwaitPublish <==> state == RunState::Racing
            && exit matches DriverExit::Capture(Ok(_)),
        publish_start(config).1 matches PublishAction::Finish(result) ==> result is Err && (
        run_step(RunState::Racing, DriverExit::Publish(result)).1 matches RunAction::Finish(
            Err(RunError::Publish(error)),
        ) && result == Err::<(), PublishError>(error)),
{
}

/// A configured run.
pub struct Pipe2Moq {
    pipeline_config: PipelineConfig,
    moq_config: MoqConfig,
}

impl Pipe2Moq {
    /// The capture settings of the run.
    pub closed spec fn pipeline_view(&self) -> PipelineConfig {
        self.pipeline_config
    }

    /// The relay settings of the run.
    pub closed spec fn moq_view(&self) -> MoqConfig {
        self.moq_config
    }

    /// A run with these settings.
    pub fn new(pipeline_config: PipelineConfig, moq_config: MoqConfig) -> (app: Pipe2Moq)
        ensures
            app.pipeline_view() == pipeline_config,
            app.moq_view() == moq_config,
    {
        Pipe2Moq { pipeline_config, moq_config }
    }

    /// The capture settings of the run.
    pub fn pipeline_config(&self) -> (config: &PipelineConfig)
        ensures
            *config == self.pipeline_view(),
    {
        &self.pipeline_config
    }

    /// The relay settings of the run.
    pub fn moq_config(&self) -> (config: &MoqConfig)
        ensures
            *config == self.moq_view(),
    {
        &self.moq_config
    }

    /// The two halves of the run's frame channel, which holds up to
    /// `FRAME_CHANNEL_CAPACITY` frames.
    pub fn open_channel(&self) -> (halves: (Sender<Frame>, Receiver<Frame>))
        ensures
            sender_bound(halves.0) == FRAME_CHANNEL_CAPACITY,
    {
        bounded_channel(FRAME_CHANNEL_CAPACITY)
    }

    /// Where the capture driver of this run takes its device from.
    pub fn source_plan(&self) -> (plan: SourcePlan)
        ensures
            match self.pipeline_view().sink_name {
                Some(sink) => plan matches SourcePlan::Device(source) && source@ == monitor_name(
                    sink@,
                ),
                None => plan is QueryDefault,
            },
    {
        plan_source(&self.pipeline_config.sink_name)
    }

    /// The first state and action of this run's publish driver.
    pub fn start_publish(&self) -> (first: (PublishState, PublishAction))
        ensures
            first == publish_start(self.moq_view()),
    {
        PublishState::start(self.moq_config.clone())
    }
}

} // verus!
