//! The capture driver's decisions: which device to capture from, what
//! becomes of each encoded unit, and how the pipeline's lifecycle
//! messages end the run. Whoever owns the pipeline does what the actions
//! say and reports back what happened.

use crate::frame::{timestamp_of, Frame, FrameView};
use vstd::prelude::*;
use vstd::string::StringExecFns;

verus! {

/// Why the capture driver gave up.
#[derive(Debug, PartialEq, Eq)]
pub enum CaptureError {
    /// The system could not be asked for its default output device.
    DeviceQuery(String),
    /// The system named no default output device.
    NoDefaultDevice,
    /// The pipeline could not be built, linked or set playing.
    Startup(String),
    /// The running pipeline reported an error.
    Pipeline(String),
    /// The pipeline could not be brought to its stopped state.
    Shutdown(String),
    /// The driver was told of something that cannot happen in its state.
    OutOfTurn,
}

/// The text shown for a capture error.
pub open spec fn capture_error_text(error: CaptureError) -> Seq<char> {
    match error {
        CaptureError::DeviceQuery(reason) => "Failed to query the default sink: "@ + reason@,
        CaptureError::NoDefaultDevice => "No default sink found"@,
        CaptureError::Startup(reason) => "Failed to start the pipeline: "@ + reason@,
        CaptureError::Pipeline(text) => "GStreamer pipeline error: "@ + text@,
        CaptureError::Shutdown(reason) => "Failed to stop the pipeline: "@ + reason@,
        CaptureError::OutOfTurn => "Capture driver used out of turn"@,
    }
}

impl CaptureError {
    /// The text shown for this error.
    pub fn message(&self) -> (text: String)
        ensures
            text@ == capture_error_text(*self),
    {
        match self {
            CaptureError::DeviceQuery(reason) => String::from_str(
                "Failed to query the default sink: ",
            ).concat(reason.as_str()),
            CaptureError::NoDefaultDevice => String::from_str("No default sink found"),
            CaptureError::Startup(reason) => String::from_str(
                "Failed to start the pipeline: ",
            ).concat(reason.as_str()),
            CaptureError::Pipeline(text) => String::from_str("GStreamer pipeline error: ").concat(
                text.as_str(),
            ),
            CaptureError::Shutdown(reason) => String::from_str(
                "Failed to stop the pipeline: ",
            ).concat(reason.as_str()),
            CaptureError::OutOfTurn => String::from_str("Capture driver used out of turn"),
        }
    }
}

/// Where the name of the capture device comes from.
#[derive(Debug, PartialEq, Eq)]
pub enum SourcePlan {
    /// The configuration names the output device; this is its monitor.
    Device(String),
    /// The system has to be asked for its default output device.
    QueryDefault,
}

/// What `str::trim` makes of a text.
pub uninterp spec fn trimmed(text: Seq<char>) -> Seq<char>;

/// `str::trim`: the text without the white space at its two ends.
#[verifier::external_body]
fn trim_text(text: &str) -> (inner: &str)
    ensures
        inner@ == trimmed(text@),
{
    text.trim()
}

/// The name of the source that monitors the output device `sink`.
pub open spec fn monitor_name(sink: Seq<char>) -> Seq<char> {
    sink + ".monitor"@
}

/// The name of the source that monitors the output device `sink`.
pub fn monitor_of(sink: &str) -> (source: String)
    ensures
        source@ == monitor_name(sink@),
{
    String::from_str(sink).concat(".monitor")
}

/// The capture source for a configured output device, or the order to
/// find the system's default one.
pub fn plan_source(sink_name: &Option<String>) -> (plan: SourcePlan)
    ensures
        match *sink_name {
            Some(sink) => plan matches SourcePlan::Device(source) && source@ == monitor_name(
                sink@,
            ),
            None => plan is QueryDefault,
        },
{
    match sink_name {
        Some(sink) => SourcePlan::Device(monitor_of(sink.as_str())),
        None => SourcePlan::QueryDefault,
    }
}

/// The capture source for the default output device `name`; an error
/// where the system named none.
pub fn source_of_default(name: &str) -> (source: Result<String, CaptureError>)
    ensures
        name@.len() == 0 <==> source is Err,
        source matches Err(error) ==> error is NoDefaultDevice,
        source matches Ok(device) ==> device@ == monitor_name(name@),
{
    if name.is_empty() {
        Err(CaptureError::NoDefaultDevice)
    } else {
        Ok(monitor_of(name))
    }
}

/// The capture source for what the system printed when it was asked for
/// its default output device: the monitor of the name inside the white
/// space, an error where there is no name.
pub fn discovered_source(output: &str) -> (source: Result<String, CaptureError>)
    ensures
        trimmed(output@).len() == 0 <==> source is Err,
        source matches Err(error) ==> error is NoDefaultDevice,
        source matches Ok(device) ==> device@ == monitor_name(trimmed(output@)),
{
    source_of_default(trim_text(output))
}

/// The capture source once the system was asked for its default output
/// device: from what it printed, or the failure to ask it.
pub fn resolve_default(answer: Result<String, String>) -> (source: Result<String, CaptureError>)
    ensures
        match answer {
            Ok(output) => {
                &&& trimmed(output@).len() == 0 <==> source is Err
                &&& source matches Err(error) ==> error is NoDefaultDevice
                &&& source matches Ok(device) ==> device@ == monitor_name(trimmed(output@))
            },
            Err(reason) => source == Err::<String, CaptureError>(
                CaptureError::DeviceQuery(reason),
            ),
        },
{
    match answer {
        Ok(output) => discovered_source(output.as_str()),
        Err(reason) => Err(CaptureError::DeviceQuery(reason)),
    }
}

/// What the pipeline handed over when it announced an encoded unit.
#[derive(Debug, PartialEq, Eq)]
pub enum Sample {
    /// No sample could be pulled: the stream is over.
    PullFailed,
    /// The sample carries no buffer.
    NoBuffer,
    /// The buffer could not be read.
    Unreadable,
    /// The bytes of the unit and its presentation stamp in nanoseconds,
    /// if it has one.
    Unit { data: Vec<u8>, pts_ns: Option<u64> },
}

/// How the callback tells the pipeline to stop calling it.
#[derive(Clone, Copy, Debug, PartialEq, Eq, Structural)]
pub enum FlowError {
    /// The stream has ended.
    Eos,
    /// Something went wrong for good.
    Error,
}

/// What a sample comes to.
pub open spec fn sample_outcome(sample: Sample) -> Result<FrameView, FlowError> {
    match sample {
        Sample::PullFailed => Err(FlowError::Eos),
        Sample::NoBuffer => Err(FlowError::Error),
        Sample::Unreadable => Err(FlowError::Error),
        Sample::Unit { data, pts_ns } => Ok(
            FrameView { payload: data@, timestamp_us: timestamp_of(pts_ns) },
        ),
    }
}

/// The frame to send for a sample, or the signal that ends the flow.
pub fn frame_of_sample(sample: Sample) -> (frame: Result<Frame, FlowError>)
    ensures
        match frame {
            Ok(f) => sample_outcome(sample) == Ok::<FrameView, FlowError>(f@),
            Err(e) => sample_outcome(sample) == Err::<FrameView, FlowError>(e),
        },
{
    match sample {
        Sample::PullFailed => Err(FlowError::Eos),
        Sample::NoBuffer => Err(FlowError::Error),
        Sample::Unreadable => Err(FlowError::Error),
        Sample::Unit { data, pts_ns } => Ok(Frame::from_encoded(data, pts_ns)),
    }
}

/// What the callback answers once the send is over: the flow goes on if
/// the frame was taken, and ends for good if the channel was closed.
pub fn flow_after_send(sent: bool) -> (flow: Result<(), FlowError>)
    ensures
        sent <==> flow is Ok,
        flow matches Err(e) ==> e == FlowError::Error,
{
    if sent {
        Ok(())
    } else {
        Err(FlowError::Error)
    }
}

/// A message from the pipeline's bus.
#[derive(Debug, PartialEq, Eq)]
pub enum BusMessage {
    /// The stream has ended.
    EndOfStream,
    /// The pipeline failed; the text says how.
    Error(String),
    /// Something is off, but the pipeline goes on.
    Warning(String),
    /// Anything else.
    Other,
}

/// What the owner of the pipeline reports to the driver.
#[derive(Debug, PartialEq, Eq)]
pub enum CaptureEvent {
    /// The pipeline is built, linked and playing.
    Started,
    /// The pipeline could not be built, linked or set playing.
    StartFailed(String),
    /// The bus delivered a message.
    Message(BusMessage),
    /// The bus will deliver no more messages.
    BusEnded,
    /// The pipeline has reached its stopped state.
    Stopped,
    /// The pipeline could not be stopped.
    StopFailed(String),
}

/// What the driver asks the owner of the pipeline to do next.
#[derive(Debug, PartialEq, Eq)]
pub enum CaptureAction {
    /// Wait for the next bus message.
    Await,
    /// Log the warning, then wait for the next bus message.
    Warn(String),
    /// Bring the pipeline to its stopped state.
    Stop,
    /// Let go of the channel's producer half and end with this result.
    Finish(Result<(), CaptureError>),
}

/// Where the pipeline stands.
#[derive(Debug, PartialEq, Eq)]
pub enum PipelineState {
    /// Not started yet.
    Idle,
    /// Capturing.
    Playing,
    /// On its way to the stopped state, with the failure that brought it
    /// there, if one did.
    Draining { failure: Option<CaptureError> },
    /// Stopped for good.
    Stopped,
}

/// The result to end with after a clean stop.
pub open spec fn result_of(failure: Option<CaptureError>) -> Result<(), CaptureError> {
    match failure {
        None => Ok(()),
        Some(error) => Err(error),
    }
}

/// The driver's next state and action on an event.
pub open spec fn capture_step(state: PipelineState, event: CaptureEvent) -> (
    PipelineState,
    CaptureAction,
) {
    match state {
        PipelineState::Idle => match event {
            CaptureEvent::Started => (PipelineState::Playing, CaptureAction::Await),
            CaptureEvent::StartFailed(reason) => (
                PipelineState::Stopped,
                CaptureAction::Finish(Err(CaptureError::Startup(reason))),
            ),
            _ => (PipelineState::Stopped, CaptureAction::Finish(Err(CaptureError::OutOfTurn))),
        },
        PipelineState::Playing => match event {
            CaptureEvent::Message(BusMessage::EndOfStream) => (
                PipelineState::Draining { failure: None },
                CaptureAction::Stop,
            ),
            CaptureEvent::Message(BusMessage::Error(text)) => (
                PipelineState::Draining { failure: Some(CaptureError::Pipeline(text)) },
                CaptureAction::Stop,
            ),
            CaptureEvent::Message(BusMessage::Warning(text)) => (
                PipelineState::Playing,
                CaptureAction::Warn(text),
            ),
            CaptureEvent::Message(BusMessage::Other) => (
                PipelineState::Playing,
                CaptureAction::Await,
            ),
            CaptureEvent::BusEnded => (
                PipelineState::Draining { failure: None },
                CaptureAction::Stop,
            ),
            _ => (
                PipelineState::Draining { failure: Some(CaptureError::OutOfTurn) },
                CaptureAction::Stop,
            ),
        },
        PipelineState::Draining { failure } => match event {
            CaptureEvent::Stopped => (
                PipelineState::Stopped,
                CaptureAction::Finish(result_of(failure)),
            ),
            CaptureEvent::StopFailed(reason) => (
                PipelineState::Stopped,
                CaptureAction::Finish(Err(CaptureError::Shutdown(reason))),
            ),
            _ => (PipelineState::Draining { failure }, CaptureAction::Stop),
        },
        PipelineState::Stopped => (
            PipelineState::Stopped,
            CaptureAction::Finish(Err(CaptureError::OutOfTurn)),
        ),
    }
}

impl PipelineState {
    /// The state of a driver that has done nothing yet.
    pub fn new() -> (state: PipelineState)
        ensures
            state is Idle,
    {
        PipelineState::Idle
    }

    /// The next state and what to do, on an event:
    /// - before the start, a pipeline that plays is waited on, and one
    ///   that does not start ends the run with the reason;
    /// - while playing, the end of the stream and an error both stop the
    ///   pipeline, a warning is logged and the wait goes on;
    /// - once the pipeline has stopped, the run ends: cleanly, or with
    ///   the error that stopped it. A stop that fails ends the run with
    ///   that failure.
    pub fn advance(self, event: CaptureEvent) -> (next: (PipelineState, CaptureAction))
        ensures
            next == capture_step(self, event),
    {
        match self {
            PipelineState::Idle => match event {
                CaptureEvent::Started => (PipelineState::Playing, CaptureAction::Await),
                CaptureEvent::StartFailed(reason) => (
                    PipelineState::Stopped,
                    CaptureAction::Finish(Err(CaptureError::Startup(reason))),
                ),
                _ => (PipelineState::Stopped, CaptureAction::Finish(Err(CaptureError::OutOfTurn))),
            },
            PipelineState::Playing => match event {
                CaptureEvent::Message(message) => match message {
                    BusMessage::EndOfStream => (
                        PipelineState::Draining { failure: None },
                        CaptureAction::Stop,
                    ),
                    BusMessage::Error(text) => (
                        PipelineState::Draining { failure: Some(CaptureError::Pipeline(text)) },
                        CaptureAction::Stop,
                    ),
                    BusMessage::Warning(text) => (
                        PipelineState::Playing,
                        CaptureAction::Warn(text),
                    ),
                    BusMessage::Other => (PipelineState::Playing, CaptureAction::Await),
                },
                CaptureEvent::BusEnded => (
                    PipelineState::Draining { failure: None },
                    CaptureAction::Stop,
                ),
                _ => (
                    PipelineState::Draining { failure: Some(CaptureError::OutOfTurn) },
                    CaptureAction::Stop,
                ),
            },
            PipelineState::Draining { failure } => match event {
                CaptureEvent::Stopped => {
                    let result = match failure {
                        None => Ok(()),
                        Some(error) => Err(error),
                    };
                    (PipelineState::Stopped, CaptureAction::Finish(result))
                },
                CaptureEvent::StopFailed(reason) => (
                    PipelineState::Stopped,
                    CaptureAction::Finish(Err(CaptureError::Shutdown(reason))),
                ),
                _ => (PipelineState::Draining { failure }, CaptureAction::Stop),
            },
            PipelineState::Stopped => (
                PipelineState::Stopped,
                CaptureAction::Finish(Err(CaptureError::OutOfTurn)),
            ),
        }
    }
}

/// A bus message that does not end the run: a warning, or one that the
/// driver has no use for.
pub open spec fn harmless(event: CaptureEvent) -> bool {
    event matches CaptureEvent::Message(message) && (message is Warning || message is Other)
}

/// The state after a run of events, first to last.
pub open spec fn state_after(state: PipelineState, events: Seq<CaptureEvent>) -> PipelineState
    decreases events.len(),
{
    if events.len() == 0 {
        state
    } else {
        capture_step(state_after(state, events.drop_last()), events.last()).0
    }
}

/// Warnings are not fatal. Whatever run of warnings and other messages a
/// playing pipeline sends, the driver keeps playing and never asks for a
/// stop or an end; the end of the stream after them still stops the
/// pipeline, and the run then ends without an error.
pub proof fn lemma_warnings_are_not_fatal(events: Seq<CaptureEvent>)
    requires
        forall|i: int| 0 <= i < events.len() ==> harmless(#[trigger] events[i]),
    ensures
        state_after(PipelineState::Playing, events) is Playing,
        forall|i: int|
            0 <= i < events.len() ==> {
                let action = capture_step(
                    state_after(PipelineState::Playing, events.take(i)),
                    #[trigger] events[i],
                ).1;
                action is Await || action is Warn
            },
        capture_step(
            state_after(PipelineState::Playing, events),
            CaptureEvent::Message(BusMessage::EndOfStream),
        ) == (PipelineState::Draining { failure: None }, CaptureAction::Stop),
        capture_step(PipelineState::Draining { failure: None }, CaptureEvent::Stopped) == (
            PipelineState::Stopped,
            CaptureAction::Finish(Ok(())),
        ),
    decreases events.len(),
{
    if events.len() > 0 {
        let head = events.drop_last();
        lemma_warnings_are_not_fatal(head);
        assert(harmless(events[events.len() - 1]));
        assert forall|i: int| 0 <= i < events.len() implies {
            let action = capture_step(
                state_after(PipelineState::Playing, events.take(i)),
                #[trigger] events[i],
            ).1;
            action is Await || action is Warn
        } by {
            if i < events.len() - 1 {
                assert(events.take(i) =~= head.take(i));
                assert(events[i] == head[i]);
            } else {
                assert(events.take(i) =~= head);
            }
        }
    }
}

/// No run ends before the pipeline was stopped: a playing pipeline is
/// never left with `Finish`, whatever happens; and a pipeline on its way
/// down ends the run with the failure that a failed stop gives, else with
/// the error that brought it down, else cleanly.
pub proof fn lemma_stop_before_finish(event: CaptureEvent, failure: Option<CaptureError>)
    ensures
        !(capture_step(PipelineState::Playing, event).1 is Finish),
        capture_step(PipelineState::Playing, event).0 is Playing || capture_step(
            PipelineState::Playing,
            event,
        ).1 is Stop,
        capture_step(PipelineState::Draining { failure }, event).1 is Finish <==> event is Stopped
            || event is StopFailed,
        capture_step(PipelineState::Draining { failure }, event).1 is Finish ==> capture_step(
            PipelineState::Draining { failure },
            event,
        ).0 is Stopped,
{
}

} // verus!
