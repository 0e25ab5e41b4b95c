use bytes::Bytes;
use pipe2moq::config::MoqConfig;
use pipe2moq::frame::Frame;
use pipe2moq::publish::{
    PublishAction, PublishError, PublishEvent, PublishState, PROGRESS_INTERVAL, TRACK_PRIORITY,
};
use pipe2moq::track::{ops_for, TrackLog, TrackOp};

fn config(url: &str) -> MoqConfig {
    MoqConfig {
        relay_url: url.to_string(),
        broadcast_path: "/live/audio".to_string(),
        track_name: "audio".to_string(),
    }
}

fn draining() -> PublishState {
    let (state, _) = PublishState::start(config("https://relay.example:4443/anon"));
    let (state, _) = state.advance(PublishEvent::Connected);
    let (state, action) = state.advance(PublishEvent::Announced);
    assert_eq!(action, PublishAction::Receive);
    state
}

#[test]
fn good_address_is_parsed_and_connected_to() {
    let (state, action) = PublishState::start(config("https://Relay.Example:4443/anon"));
    assert_eq!(
        state,
        PublishState::Connecting {
            broadcast_path: "/live/audio".to_string(),
            track_name: "audio".to_string(),
        }
    );
    match action {
        PublishAction::Connect(url) => {
            assert_eq!(url.as_str(), "https://relay.example:4443/anon");
            assert_eq!(url.port(), Some(4443));
        }
        other => panic!("expected to connect, got {:?}", other),
    }
}

#[test]
fn bad_address_fails_before_anything_is_announced() {
    let (state, action) = PublishState::start(config("not a url"));
    assert_eq!(state, PublishState::Failed);
    let error = match action {
        PublishAction::Finish(Err(error)) => error,
        other => panic!("expected a failure, got {:?}", other),
    };
    assert_eq!(
        error,
        PublishError::InvalidRelayUrl {
            url: "not a url".to_string(),
            cause: url::ParseError::RelativeUrlWithoutBase,
        }
    );
    assert_eq!(error.message(), "Invalid relay URL: not a url");
    let (state, action) = state.advance(PublishEvent::Frame(Frame::new(Bytes::new(), 0)));
    assert_eq!(state, PublishState::Failed);
    assert_eq!(action, PublishAction::Finish(Err(PublishError::OutOfTurn)));
}

#[test]
fn empty_host_is_no_address() {
    let (_, action) = PublishState::start(config("https://"));
    assert_eq!(
        action,
        PublishAction::Finish(Err(PublishError::InvalidRelayUrl {
            url: "https://".to_string(),
            cause: url::ParseError::EmptyHost,
        }))
    );
}

#[test]
fn unreachable_relay_fails_before_any_group() {
    let (state, _) = PublishState::start(config("https://localhost:4443/anon"));
    let (state, action) = state.advance(PublishEvent::ConnectFailed("timed out".to_string()));
    assert_eq!(state, PublishState::Failed);
    let error = match action {
        PublishAction::Finish(Err(error)) => error,
        other => panic!("expected a failure, got {:?}", other),
    };
    assert_eq!(error, PublishError::Connect("timed out".to_string()));
    assert_eq!(error.message(), "Failed to connect to the relay: timed out");
}

#[test]
fn connected_driver_announces_path_track_and_priority() {
    let (state, _) = PublishState::start(config("https://localhost:4443/anon"));
    let (state, action) = state.advance(PublishEvent::Connected);
    assert_eq!(state, PublishState::Announcing);
    assert_eq!(TRACK_PRIORITY, 1);
    assert_eq!(
        action,
        PublishAction::Announce {
            broadcast_path: "/live/audio".to_string(),
            track_name: "audio".to_string(),
            priority: 1,
        }
    );
    let (state, action) = state.advance(PublishEvent::AnnounceFailed("duplicate".to_string()));
    assert_eq!(state, PublishState::Failed);
    assert_eq!(
        action,
        PublishAction::Finish(Err(PublishError::Announce("duplicate".to_string())))
    );
}

#[test]
fn each_frame_is_forwarded_with_its_payload() {
    let state = draining();
    assert_eq!(state, PublishState::Draining { forwarded: 0 });
    let (state, action) =
        state.advance(PublishEvent::Frame(Frame::new(Bytes::from(vec![1u8, 2, 3]), 777)));
    assert_eq!(state, PublishState::Draining { forwarded: 1 });
    assert_eq!(
        action,
        PublishAction::Forward { payload: Bytes::from(vec![1u8, 2, 3]), progress: None }
    );
    let (state, action) = state.advance(PublishEvent::ChannelClosed);
    assert_eq!(state, PublishState::Finished);
    assert_eq!(action, PublishAction::Finish(Ok(())));
}

#[test]
fn progress_is_due_every_hundred_frames() {
    assert_eq!(PROGRESS_INTERVAL, 100);
    let mut state = draining();
    let mut reports: Vec<u64> = Vec::new();
    for i in 0..250u64 {
        let (next, action) =
            state.advance(PublishEvent::Frame(Frame::new(Bytes::from(vec![i as u8]), i)));
        match action {
            PublishAction::Forward { payload, progress } => {
                assert_eq!(payload, Bytes::from(vec![i as u8]));
                if let Some(count) = progress {
                    assert_eq!(count, i + 1);
                    reports.push(count);
                }
            }
            other => panic!("expected a forward, got {:?}", other),
        }
        state = next;
    }
    assert_eq!(reports, vec![100, 200]);
    assert_eq!(state, PublishState::Draining { forwarded: 250 });
}

#[test]
fn frame_count_stops_at_the_largest_number() {
    let state = PublishState::Draining { forwarded: u64::MAX - 1 };
    let (state, action) = state.advance(PublishEvent::Frame(Frame::new(Bytes::new(), 0)));
    assert_eq!(state, PublishState::Draining { forwarded: u64::MAX });
    assert_eq!(action, PublishAction::Forward { payload: Bytes::new(), progress: None });
    let (state, _) = state.advance(PublishEvent::Frame(Frame::new(Bytes::new(), 0)));
    assert_eq!(state, PublishState::Draining { forwarded: u64::MAX });
}

#[test]
fn failed_write_is_fatal() {
    let (state, action) = draining().advance(PublishEvent::WriteFailed("reset".to_string()));
    assert_eq!(state, PublishState::Failed);
    let error = match action {
        PublishAction::Finish(Err(error)) => error,
        other => panic!("expected a failure, got {:?}", other),
    };
    assert_eq!(error, PublishError::Write("reset".to_string()));
    assert_eq!(error.message(), "Failed to write group: reset");
    assert_eq!(
        PublishError::Announce("taken".to_string()).message(),
        "Failed to create broadcast: taken"
    );
    assert_eq!(PublishError::OutOfTurn.message(), "Publish driver used out of turn");
}

#[test]
fn publish_events_out_of_turn_are_errors() {
    let (state, _) = PublishState::start(config("https://localhost:4443/anon"));
    let (state, action) = state.advance(PublishEvent::Announced);
    assert_eq!(state, PublishState::Failed);
    assert_eq!(action, PublishAction::Finish(Err(PublishError::OutOfTurn)));
    let (state, action) = draining().advance(PublishEvent::Connected);
    assert_eq!(state, PublishState::Failed);
    assert_eq!(action, PublishAction::Finish(Err(PublishError::OutOfTurn)));
    let (state, action) = PublishState::Finished.advance(PublishEvent::ChannelClosed);
    assert_eq!(state, PublishState::Finished);
    assert_eq!(action, PublishAction::Finish(Err(PublishError::OutOfTurn)));
    let (_, action) = PublishState::Announcing.advance(PublishEvent::ChannelClosed);
    assert_eq!(action, PublishAction::Finish(Err(PublishError::OutOfTurn)));
}

#[test]
fn a_group_is_opened_written_once_and_closed() {
    let ops = ops_for(Bytes::from(vec![5u8, 6]));
    assert_eq!(
        ops,
        vec![
            TrackOp::OpenGroup,
            TrackOp::WriteFrame(Bytes::from(vec![5u8, 6])),
            TrackOp::CloseGroup
        ]
    );
}

#[test]
fn m_frames_make_m_groups_of_one_write_each() {
    let mut state = draining();
    let mut log = TrackLog::new();
    let payloads: Vec<Vec<u8>> = vec![vec![1], vec![], vec![2, 2], vec![3, 3, 3], vec![1]];
    for (i, payload) in payloads.iter().enumerate() {
        let frame = Frame::from_encoded(payload.clone(), Some(i as u64 * 20_000_000));
        let (next, action) = state.advance(PublishEvent::Frame(frame));
        match action {
            PublishAction::Forward { payload, .. } => assert!(log.apply_all(ops_for(payload))),
            other => panic!("expected a forward, got {:?}", other),
        }
        state = next;
    }
    assert_eq!(log.group_count(), 5);
    for (i, payload) in payloads.iter().enumerate() {
        assert_eq!(log.group_len(i), Some(1));
        assert_eq!(log.group_closed(i), Some(true));
        assert_eq!(log.payload(i, 0), Some(&Bytes::from(payload.clone())));
    }
    assert_eq!(state, PublishState::Draining { forwarded: 5 });
}

#[test]
fn track_refuses_what_breaks_its_rules() {
    let mut log = TrackLog::new();
    assert!(!log.apply(TrackOp::WriteFrame(Bytes::from(vec![1u8]))));
    assert!(!log.apply(TrackOp::CloseGroup));
    assert_eq!(log.group_count(), 0);
    assert!(log.apply(TrackOp::OpenGroup));
    assert!(!log.apply(TrackOp::OpenGroup));
    assert_eq!(log.group_count(), 1);
    assert_eq!(log.group_closed(0), Some(false));
    assert!(log.apply(TrackOp::WriteFrame(Bytes::from(vec![1u8]))));
    assert!(log.apply(TrackOp::WriteFrame(Bytes::from(vec![2u8]))));
    assert_eq!(log.group_len(0), Some(2));
    assert!(log.apply(TrackOp::CloseGroup));
    assert!(!log.apply(TrackOp::WriteFrame(Bytes::from(vec![3u8]))));
    assert!(!log.apply(TrackOp::CloseGroup));
    assert_eq!(log.group_len(0), Some(2));
    assert_eq!(log.payload(0, 1), Some(&Bytes::from(vec![2u8])));
    assert_eq!(log.group_closed(0), Some(true));
    assert_eq!(log.group_closed(1), None);
    assert!(!log.apply_all(vec![TrackOp::OpenGroup, TrackOp::OpenGroup]));
    assert!(log.apply_all(Vec::new()));
}
