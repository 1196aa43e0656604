use sonata::browser::BrowserSession;
use sonata::duration::Duration;
use sonata::error::Error;
use sonata::event::MediaEventKind;
use sonata::model::{MediaSource, PlaybackState};
use sonata::native_messaging::{
    channel_closed_error, check_frame_length, frame_length, invalid_payload_error,
    length_read_error, payload_read_error, MAX_MESSAGE_BYTES,
};
use sonata::protocol::{
    duration_from_millis, WireEventKind, WireMessage, WireMillis, WirePlaybackState,
    WireSource, WireTrack,
};

fn message(application: &str, kind: WireEventKind) -> WireMessage {
    WireMessage {
        source: WireSource { kind: "browser".into(), application: application.into() },
        kind,
    }
}

fn wire_track(title: &str) -> WireTrack {
    WireTrack {
        title: title.into(),
        artists: vec!["Tool".into()],
        album: Some("Lateralus".into()),
        duration_ms: Some(WireMillis::Valid(Duration::from_millis(563_000))),
        artwork_url: None,
        url: Some("https://music.youtube.com/watch?v=x".into()),
    }
}

#[test]
fn frame_headers_announce_the_payload_length() {
    assert_eq!(frame_length(5u32.to_ne_bytes()).unwrap(), 5);
    assert_eq!(frame_length(0u32.to_ne_bytes()).unwrap(), 0);
    assert_eq!(frame_length(1_048_576u32.to_ne_bytes()).unwrap(), MAX_MESSAGE_BYTES);
    assert_eq!(
        frame_length(1_048_577u32.to_ne_bytes()).unwrap_err(),
        Error::Provider("native messaging frame too large: 1048577 bytes".into())
    );
    assert_eq!(
        check_frame_length(u32::MAX).unwrap_err(),
        Error::Provider("native messaging frame too large: 4294967295 bytes".into())
    );
}

#[test]
fn framing_errors_say_what_failed() {
    assert_eq!(
        length_read_error("broken pipe"),
        Error::Provider("failed to read native messaging frame length: broken pipe".into())
    );
    assert_eq!(
        payload_read_error("early eof"),
        Error::Provider("failed to read native messaging payload: early eof".into())
    );
    assert_eq!(
        invalid_payload_error("expected value"),
        Error::Provider("invalid native messaging payload: expected value".into())
    );
    assert_eq!(channel_closed_error(), Error::Provider("native messaging channel closed".into()));
}

#[test]
fn wire_messages_become_media_events() {
    let event = message("music.youtube.com", WireEventKind::TrackChanged { track: wire_track("Schism") })
        .into_media_event()
        .unwrap();
    assert_eq!(event.source, MediaSource::browser("music.youtube.com").unwrap());
    match event.kind {
        MediaEventKind::TrackChanged { track } => {
            assert_eq!(track.title, "Schism");
            assert_eq!(track.artists, vec!["Tool".to_string()]);
            assert_eq!(track.album.as_deref(), Some("Lateralus"));
            assert_eq!(track.duration, Some(Duration::from_millis(563_000)));
            assert_eq!(track.url.as_deref(), Some("https://music.youtube.com/watch?v=x"));
        }
        other => panic!("unexpected event {other:?}"),
    }
    let paused = message("soundcloud.com", WireEventKind::PlaybackStateChanged { state: WirePlaybackState::Paused })
        .into_media_event()
        .unwrap();
    assert_eq!(paused.kind, MediaEventKind::PlaybackStateChanged { state: PlaybackState::Paused });
    let position = message("soundcloud.com", WireEventKind::PositionChanged { position_ms: WireMillis::Valid(Duration::from_millis(1234)) })
        .into_media_event()
        .unwrap();
    assert_eq!(position.kind, MediaEventKind::PositionChanged { position: Duration::from_millis(1234) });
    let ended = message("soundcloud.com", WireEventKind::SessionEnded).into_media_event().unwrap();
    assert_eq!(ended.kind, MediaEventKind::SessionEnded);
    assert_eq!(PlaybackState::from(WirePlaybackState::Stopped), PlaybackState::Stopped);
}

#[test]
fn wire_messages_are_checked_source_first() {
    let mut track = wire_track(" ");
    track.duration_ms = Some(WireMillis::Invalid);
    assert_eq!(
        message(" ", WireEventKind::TrackChanged { track }).into_media_event().unwrap_err(),
        Error::InvalidMediaData("media source application cannot be empty".into())
    );
    let mut track = wire_track(" ");
    track.duration_ms = Some(WireMillis::Invalid);
    assert_eq!(
        message("x", WireEventKind::TrackChanged { track }).into_media_event().unwrap_err(),
        Error::InvalidMediaData("track title cannot be empty".into())
    );
    let mut track = wire_track("ok");
    track.duration_ms = Some(WireMillis::Invalid);
    let invalid = Error::InvalidMediaData(
        "received a negative or non-finite duration from the browser".into(),
    );
    assert_eq!(message("x", WireEventKind::TrackChanged { track }).into_media_event().unwrap_err(), invalid);
    assert_eq!(
        message("x", WireEventKind::PositionChanged { position_ms: WireMillis::Invalid }).into_media_event().unwrap_err(),
        invalid
    );
    assert_eq!(duration_from_millis(WireMillis::Invalid).unwrap_err(), invalid);
}

#[test]
fn the_idle_timer_runs_only_after_an_event_that_did_not_end_the_session() {
    let mut session = BrowserSession::new();
    assert!(!session.idle_timeout_armed());

    let event = session
        .on_message(Some(Ok(message("music.youtube.com", WireEventKind::PlaybackStateChanged { state: WirePlaybackState::Playing }))))
        .unwrap();
    assert_eq!(event.kind, MediaEventKind::PlaybackStateChanged { state: PlaybackState::Playing });
    assert!(session.idle_timeout_armed());

    let ended = session.on_idle_timeout();
    assert_eq!(ended.kind, MediaEventKind::SessionEnded);
    assert_eq!(ended.source, MediaSource::browser("music.youtube.com").unwrap());
    assert!(!session.idle_timeout_armed());

    session
        .on_message(Some(Ok(message("music.youtube.com", WireEventKind::PositionChanged { position_ms: WireMillis::Valid(Duration::from_secs(1)) }))))
        .unwrap();
    assert!(session.idle_timeout_armed());
    session.on_message(Some(Ok(message("music.youtube.com", WireEventKind::SessionEnded)))).unwrap();
    assert!(!session.idle_timeout_armed());
}

#[test]
fn reader_failures_reach_the_provider_unchanged() {
    let mut session = BrowserSession::new();
    assert_eq!(
        session.on_message(None).unwrap_err(),
        Error::Provider("the native messaging reader stopped unexpectedly".into())
    );
    let failure = Error::Provider("native messaging channel closed".into());
    assert_eq!(session.on_message(Some(Err(failure.clone()))).unwrap_err(), failure);
    assert!(session.on_message(Some(Ok(message("", WireEventKind::SessionEnded)))).is_err());
    assert!(!session.idle_timeout_armed());
}
