//! The publish driver's decisions: whether the relay address is one to
//! connect to, what to announce once connected, and what to do with each
//! frame that the channel delivers. Whoever owns the session does what
//! the actions say and reports back what happened.

use crate::config::MoqConfig;
use crate::frame::Frame;
use bytes::Bytes;
use url::{ParseError, Url};
use vstd::prelude::*;
use vstd::string::StringExecFns;

verus! {

/// `url::Url`, a parsed absolute URL. Verus sees nothing inside it.
#[verifier::external_type_specification]
#[verifier::external_body]
pub struct ExUrl(Url);

/// `url::ParseError`, the reason why a text is no URL.
#[verifier::external_type_specification]
#[verifier::external_body]
pub struct ExParseError(ParseError);

/// What `Url::parse` makes of a text.
pub uninterp spec fn parsed_url(text: Seq<char>) -> Result<Url, ParseError>;

/// `Url::parse`: the absolute URL that the text spells, or the reason why
/// it spells none. The answer depends on the text alone.
#[verifier::external_body]
fn parse_url(text: &str) -> (parsed: Result<Url, ParseError>)
    ensures
        parsed == parsed_url(text@),
{
    Url::parse(text)
}

/// The priority of the one track that is published.
pub const TRACK_PRIORITY: u8 = 1;

/// After how many frames a line on the progress is due.
pub const PROGRESS_INTERVAL: u64 = 100;

/// Why the publish driver gave up.
#[derive(Debug, PartialEq, Eq)]
pub enum PublishError {
    /// The relay address is no URL.
    InvalidRelayUrl { url: String, cause: ParseError },
    /// No session with the relay came about.
    Connect(String),
    /// The broadcast or its track could not be created.
    Announce(String),
    /// A group could not be opened, written or closed.
    Write(String),
    /// The driver was told of something that cannot happen in its state.
    OutOfTurn,
}

/// The text shown for a publish error.
pub open spec fn publish_error_text(error: PublishError) -> Seq<char> {
    match error {
        PublishError::InvalidRelayUrl { url, cause } => "Invalid relay URL: "@ + url@,
        PublishError::Connect(reason) => "Failed to connect to the relay: "@ + reason@,
        PublishError::Announce(reason) => "Failed to create broadcast: "@ + reason@,
        PublishError::Write(reason) => "Failed to write group: "@ + reason@,
        PublishError::OutOfTurn => "Publish driver used out of turn"@,
    }
}

impl PublishError {
    /// The text shown for this error.
    pub fn message(&self) -> (text: String)
        ensures
            text@ == publish_error_text(*self),
    {
        match self {
            PublishError::InvalidRelayUrl { url, cause } => String::from_str(
                "Invalid relay URL: ",
            ).concat(url.as_str()),
            PublishError::Connect(reason) => String::from_str(
                "Failed to connect to the relay: ",
            ).concat(reason.as_str()),
            PublishError::Announce(reason) => String::from_str(
                "Failed to create broadcast: ",
            ).concat(reason.as_str()),
            PublishError::Write(reason) => String::from_str("Failed to write group: ").concat(
                reason.as_str(),
            ),
            PublishError::OutOfTurn => String::from_str("Publish driver used out of turn"),
        }
    }
}

/// What the owner of the session reports to the driver.
#[derive(Debug, PartialEq, Eq)]
pub enum PublishEvent {
    /// The session with the relay stands.
    Connected,
    /// No session came about.
    ConnectFailed(String),
    /// The broadcast and its track are created.
    Announced,
    /// The broadcast or its track could not be created.
    AnnounceFailed(String),
    /// The channel delivered a frame.
    Frame(Frame),
    /// The channel delivered its terminal marker.
    ChannelClosed,
    /// A group could not be opened, written or closed.
    WriteFailed(String),
}

/// What the driver asks the owner of the session to do next.
#[derive(Debug, PartialEq, Eq)]
pub enum PublishAction {
    /// Connect to the relay at this address.
    Connect(Url),
    /// Create the broadcast under this path, and in it the track of this
    /// name and priority.
    Announce { broadcast_path: String, track_name: String, priority: u8 },
    /// Wait for the channel's next frame.
    Receive,
    /// Publish this payload as the sole content of a new group, report
    /// the number of frames forwarded if one is given, then wait for the
    /// channel's next frame.
    Forward { payload: Bytes, progress: Option<u64> },
    /// End with this result.
    Finish(Result<(), PublishError>),
}

/// Where the publish driver stands.
#[derive(Debug, PartialEq, Eq)]
pub enum PublishState {
    /// Waiting for the session, with what is to be announced on it.
    Connecting { broadcast_path: String, track_name: String },
    /// Waiting for the broadcast and its track.
    Announcing,
    /// Forwarding frames; so many were forwarded up to now.
    Draining { forwarded: u64 },
    /// The channel was drained to its end.
    Finished,
    /// Given up.
    Failed,
}

/// The driver's first state and action for a configuration.
pub open spec fn publish_start(config: MoqConfig) -> (PublishState, PublishAction) {
    match parsed_url(config.relay_url@) {
        Ok(url) => (
            PublishState::Connecting {
                broadcast_path: config.broadcast_path,
                track_name: config.track_name,
            },
            PublishAction::Connect(url),
        ),
        Err(cause) => (
            PublishState::Failed,
            PublishAction::Finish(
                Err(PublishError::InvalidRelayUrl { url: config.relay_url, cause }),
            ),
        ),
    }
}

/// The number of frames forwarded after one more. It stops at the
/// largest number there is.
pub open spec fn count_after(forwarded: u64) -> u64 {
    if forwarded < u64::MAX {
        (forwarded + 1) as u64
    } else {
        forwarded
    }
}

/// The number to report after a frame, if a line on the progress is due.
pub open spec fn progress_at(count: u64) -> Option<u64> {
    if count % PROGRESS_INTERVAL == 0 {
        Some(count)
    } else {
        None
    }
}

/// The driver's next state and action on an event.
pub open spec fn publish_step(state: PublishState, event: PublishEvent) -> (
    PublishState,
    PublishAction,
) {
    match state {
        PublishState::Connecting { broadcast_path, track_name } => match event {
            PublishEvent::Connected => (
                PublishState::Announcing,
                PublishAction::Announce { broadcast_path, track_name, priority: TRACK_PRIORITY },
            ),
            PublishEvent::ConnectFailed(reason) => (
                PublishState::Failed,
                PublishAction::Finish(Err(PublishError::Connect(reason))),
            ),
            _ => (PublishState::Failed, PublishAction::Finish(Err(PublishError::OutOfTurn))),
        },
        PublishState::Announcing => match event {
            PublishEvent::Announced => (
                PublishState::Draining { forwarded: 0 },
                PublishAction::Receive,
            ),
            PublishEvent::AnnounceFailed(reason) => (
                PublishState::Failed,
                PublishAction::Finish(Err(PublishError::Announce(reason))),
            ),
            _ => (PublishState::Failed, PublishAction::Finish(Err(PublishError::OutOfTurn))),
        },
        PublishState::Draining { forwarded } => match event {
            PublishEvent::Frame(frame) => (
                PublishState::Draining { forwarded: count_after(forwarded) },
                PublishAction::Forward {
                    payload: frame.buffer(),
                    progress: progress_at(count_after(forwarded)),
                },
            ),
            PublishEvent::ChannelClosed => (PublishState::Finished, PublishAction::Finish(Ok(()))),
            PublishEvent::WriteFailed(reason) => (
                PublishState::Failed,
                PublishAction::Finish(Err(PublishError::Write(reason))),
            ),
            _ => (PublishState::Failed, PublishAction::Finish(Err(PublishError::OutOfTurn))),
        },
        PublishState::Finished => (
            PublishState::Finished,
            PublishAction::Finish(Err(PublishError::OutOfTurn)),
        ),
        PublishState::Failed => (
            PublishState::Failed,
            PublishAction::Finish(Err(PublishError::OutOfTurn)),
        ),
    }
}

impl PublishState {
    /// The first state and action: to connect, where the relay address
    /// is a URL; to end with an error, where it is not.
    pub fn start(config: MoqConfig) -> (first: (PublishState, PublishAction))
        ensures
            first == publish_start(config),
    {
        match parse_url(config.relay_url.as_str()) {
            Ok(url) => (
                PublishState::Connecting {
                    broadcast_path: config.broadcast_path,
                    track_name: config.track_name,
                },
                PublishAction::Connect(url),
            ),
            Err(cause) => (
                PublishState::Failed,
                PublishAction::Finish(
                    Err(PublishError::InvalidRelayUrl { url: config.relay_url, cause }),
                ),
            ),
        }
    }

    /// The next state and what to do, on an event:
    /// - once connected, the broadcast and its track are announced; once
    ///   they stand, frames are waited for;
    /// - each frame is forwarded as a group of its own, and counted;
    /// - the channel's terminal marker ends the run cleanly;
    /// - a failure to connect, to announce or to write ends it with that
    ///   failure.
    pub fn advance(self, event: PublishEvent) -> (next: (PublishState, PublishAction))
        ensures
            next == publish_step(self, event),
    {
        match self {
            PublishState::Connecting { broadcast_path, track_name } => match event {
                PublishEvent::Connected => (
                    PublishState::Announcing,
                    PublishAction::Announce {
                        broadcast_path,
                        track_name,
                        priority: TRACK_PRIORITY,
                    },
                ),
                PublishEvent::ConnectFailed(reason) => (
                    PublishState::Failed,
                    PublishAction::Finish(Err(PublishError::Connect(reason))),
                ),
                _ => (PublishState::Failed, PublishAction::Finish(Err(PublishError::OutOfTurn))),
            },
            PublishState::Announcing => match event {
                PublishEvent::Announced => (
                    PublishState::Draining { forwarded: 0 },
                    PublishAction::Receive,
                ),
                PublishEvent::AnnounceFailed(reason) => (
                    PublishState::Failed,
                    PublishAction::Finish(Err(PublishError::Announce(reason))),
                ),
                _ => (PublishState::Failed, PublishAction::Finish(Err(PublishError::OutOfTurn))),
            },
            PublishState::Draining { forwarded } => match event {
                PublishEvent::Frame(frame) => {
                    let count: u64 = if forwarded < u64::MAX {
                        forwarded + 1
                    } else {
                        forwarded
                    };
                    let progress = if count % PROGRESS_INTERVAL == 0 {
                        Some(count)
                    } else {
                        None
                    };
                    (
                        PublishState::Draining { forwarded: count },
                        PublishAction::Forward { payload: frame.into_payload(), progress },
                    )
                },
                PublishEvent::ChannelClosed => (
                    PublishState::Finished,
                    PublishAction::Finish(Ok(())),
                ),
                PublishEvent::WriteFailed(reason) => (
                    PublishState::Failed,
                    PublishAction::Finish(Err(PublishError::Write(reason))),
                ),
                _ => (PublishState::Failed, PublishAction::Finish(Err(PublishError::OutOfTurn))),
            },
            PublishState::Finished => (
                PublishState::Finished,
                PublishAction::Finish(Err(PublishError::OutOfTurn)),
            ),
            PublishState::Failed => (
                PublishState::Failed,
                PublishAction::Finish(Err(PublishError::OutOfTurn)),
            ),
        }
    }
}

/// A failure before the drain is fatal. An address that is no URL and a
/// relay that cannot be reached both end the run with that failure; no
/// frame is ever forwarded before the session and the track stand; and a
/// driver that has given up forwards nothing and reports no success,
/// whatever it is told afterwards.
pub proof fn lemma_startup_failure_is_fatal(
    config: MoqConfig,
    reason: String,
    state: PublishState,
    event: PublishEvent,
)
    ensures
        parsed_url(config.relay_url@) is Err ==> publish_start(config).0 is Failed && (
        publish_start(config).1 matches PublishAction::Finish(Err(error)) && error
            is InvalidRelayUrl),
        parsed_url(config.relay_url@) is Ok ==> publish_start(config).0 is Connecting
            && publish_start(config).1 is Connect,
        publish_start(config).0 is Connecting ==> publish_step(
            publish_start(config).0,
            PublishEvent::ConnectFailed(reason),
        ) == (PublishState::Failed, PublishAction::Finish(Err(PublishError::Connect(reason)))),
        publish_step(state, event).1 is Forward ==> state is Draining && event is Frame,
        publish_step(state, event).0 is Draining ==> state is Draining || (state is Announcing
            && event is Announced),
        publish_step(state, event).0 is Announcing ==> state is Connecting && event is Connected,
        state is Failed ==> publish_step(state, event) == (
            PublishState::Failed,
            PublishAction::Finish(Err(PublishError::OutOfTurn)),
        ),
        publish_step(state, event).1 matches PublishAction::Finish(Ok(_)) ==> state is Draining
            && event is ChannelClosed,
{
}

} // verus!
