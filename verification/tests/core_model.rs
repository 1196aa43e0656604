use sonata::duration::Duration;
use sonata::error::Error;
use sonata::event::{MediaEvent, MediaEventKind};
use sonata::model::{same_track, MediaSource, MediaSourceKind, PlaybackState, Track};
use sonata::text::{is_blank_str, push_decimal, push_signed_decimal, starts_with};

#[test]
fn position_event_keeps_its_source_and_duration() {
    let source = MediaSource::browser("music.youtube.com").unwrap();
    let event = MediaEvent::position_changed(source.clone(), Duration::from_secs(42));

    assert_eq!(event.source, source);
    assert_eq!(
        event.kind,
        MediaEventKind::PositionChanged {
            position: Duration::from_secs(42)
        }
    );
}

#[test]
fn state_changes_are_explicit() {
    let event = MediaEvent::playback_state_changed(
        MediaSource::system("Spotify").unwrap(),
        PlaybackState::Paused,
    );

    assert!(matches!(
        event.kind,
        MediaEventKind::PlaybackStateChanged {
            state: PlaybackState::Paused
        }
    ));
}

#[test]
fn source_requires_an_application_name() {
    let error = MediaSource::browser("  ").unwrap_err();

    assert_eq!(
        error,
        Error::InvalidMediaData("media source application cannot be empty".into())
    );
}

#[test]
fn track_starts_with_optional_metadata_absent() {
    let track = Track::new("Lateralus").unwrap();

    assert!(track.artists.is_empty());
    assert_eq!(track.duration, None);
    assert_eq!(track.artwork_url, None);
}

#[test]
fn track_requires_a_title() {
    assert_eq!(
        Track::new(" \t\n").unwrap_err(),
        Error::InvalidMediaData("track title cannot be empty".into())
    );
    assert_eq!(
        Track::new("").unwrap_err(),
        Error::InvalidMediaData("track title cannot be empty".into())
    );
}

#[test]
fn unicode_white_space_counts_as_blank() {
    assert!(is_blank_str("\u{3000}\u{a0}\u{2009}\u{85}"));
    assert!(MediaSource::system("\u{3000}").is_err());
    assert!(!is_blank_str(" x "));
    assert!(MediaSource::system(" x ").is_ok());
}

#[test]
fn sources_keep_their_kind_and_name() {
    let source = MediaSource::new(MediaSourceKind::Custom("steam".into()), " Player ").unwrap();
    assert_eq!(source.kind, MediaSourceKind::Custom("steam".into()));
    assert_eq!(source.application, " Player ");
    assert_eq!(MediaSource::browser("a").unwrap().kind, MediaSourceKind::Browser);
    assert_eq!(MediaSource::system("a").unwrap().kind, MediaSourceKind::System);
}

#[test]
fn event_constructors_carry_their_change() {
    let source = MediaSource::system("vlc").unwrap();
    let track = Track::new("Schism").unwrap();
    let event = MediaEvent::track_changed(source.clone(), track.clone());
    assert_eq!(event.kind, MediaEventKind::TrackChanged { track });
    let ended = MediaEvent::session_ended(source.clone());
    assert_eq!(ended.kind, MediaEventKind::SessionEnded);
    assert_eq!(ended.source, source);
}

#[test]
fn error_messages_name_their_variant() {
    assert_eq!(Error::Provider("x".into()).message(), "media provider error: x");
    assert_eq!(Error::Publisher("y".into()).message(), "presence publisher error: y");
    assert_eq!(Error::InvalidMediaData("z".into()).message(), "invalid media data: z");
    assert_eq!(Error::Unsupported("w".into()).message(), "unsupported operation: w");
}

#[test]
fn durations_convert_between_units() {
    assert_eq!(Duration::from_millis(1500), Duration::from_micros(1_500_000));
    assert_eq!(Duration::from_nanos(1_500_000_000), Duration::from_millis(1500));
    assert_eq!(Duration::from_millis(1500).as_millis(), 1500);
    assert_eq!(Duration::from_millis(1500).as_secs(), 1);
    assert_eq!(Duration::from_millis(1500).subsec_nanos(), 500_000_000);
    assert_eq!(Duration::new(1, 2_500_000_000), Duration::from_millis(3500));
    assert!(Duration::from_secs(2).same_as(&Duration::from_millis(2000)));
    assert!(!Duration::from_secs(2).same_as(&Duration::from_millis(2001)));
}

#[test]
fn tracks_compare_by_their_metadata() {
    let a = Track::new("Parabola").unwrap();
    let mut b = a.clone();
    assert!(same_track(&a, &b));
    b.artists.push("Tool".into());
    assert!(!same_track(&a, &b));
    let mut c = a.clone();
    c.duration = Some(Duration::from_secs(1));
    assert!(!same_track(&a, &c));
}

#[test]
fn text_helpers_follow_std() {
    assert!(starts_with("org.mpris.MediaPlayer2.vlc", "org.mpris.MediaPlayer2."));
    assert!(!starts_with("org.mpris", "org.mpris.MediaPlayer2."));
    let mut s = String::from("n=");
    push_decimal(&mut s, 1_048_577);
    assert_eq!(s, "n=1048577");
    let mut t = String::new();
    push_signed_decimal(&mut t, -42);
    assert_eq!(t, "-42");
    let mut u = String::new();
    push_signed_decimal(&mut u, i64::MIN);
    assert_eq!(u, i64::MIN.to_string());
    let mut z = String::new();
    push_decimal(&mut z, 0);
    assert_eq!(z, "0");
}
