use sonata::duration::Duration;
use sonata::error::Error;
use sonata::event::MediaEventKind;
use sonata::gsmtc::{
    duration_from_ticks, media_event, playback_event, playback_state_from_gsmtc, position_event,
    session_lost_event, source_from, timeline_to_duration, track_from_properties,
};
use sonata::model::{MediaSource, PlaybackState};
use sonata::mpris::{
    events_from_properties, initial_events, is_player_interface, owner_change_event,
    playback_state_name, player_source, position_from_micros, track_from_metadata,
    MprisChanges, MprisMetadata,
};

fn provider(message: &str) -> Error {
    Error::Provider(message.to_string())
}

fn metadata_titled(title: &str) -> MprisMetadata {
    MprisMetadata {
        title: Some(Ok(title.to_string())),
        artists: None,
        album: None,
        length: None,
        art_url: None,
    }
}

#[test]
fn maps_mpris_playback_states() {
    assert_eq!(
        playback_state_name("Playing").unwrap(),
        PlaybackState::Playing
    );
}

#[test]
fn converts_mpris_microseconds_to_a_duration() {
    let value: Result<i64, String> = Ok(1_500_000_i64);

    assert_eq!(
        position_from_micros(&value).unwrap(),
        Duration::from_millis(1500)
    );
}

#[test]
fn converts_windows_ticks_to_a_duration() {
    assert_eq!(duration_from_ticks(15_000_000).unwrap(), Duration::from_millis(1500));
}

#[test]
fn rejects_negative_windows_ticks() {
    assert!(duration_from_ticks(-1).is_err());
}

#[test]
fn mpris_states_and_their_errors() {
    assert_eq!(playback_state_name("Paused").unwrap(), PlaybackState::Paused);
    assert_eq!(playback_state_name("Stopped").unwrap(), PlaybackState::Stopped);
    assert_eq!(
        playback_state_name("playing").unwrap_err(),
        provider("received unknown MPRIS playback status: playing")
    );
}

#[test]
fn mpris_positions_must_decode_and_not_be_negative() {
    assert_eq!(
        position_from_micros(&Ok(-1)).unwrap_err(),
        provider("received a negative MPRIS position")
    );
    assert_eq!(
        position_from_micros(&Err("incorrect type".into())).unwrap_err(),
        provider("could not decode MPRIS position: incorrect type")
    );
    assert_eq!(position_from_micros(&Ok(0)).unwrap(), Duration::from_secs(0));
}

#[test]
fn mpris_metadata_needs_a_title() {
    assert_eq!(
        track_from_metadata(&Err("not a dictionary".into())).unwrap_err(),
        provider("could not decode MPRIS metadata: not a dictionary")
    );
    let mut m = metadata_titled("x");
    m.title = None;
    assert_eq!(
        track_from_metadata(&Ok(m)).unwrap_err(),
        provider("MPRIS metadata is missing xesam:title")
    );
    let mut m = metadata_titled("x");
    m.title = Some(Err("bad".into()));
    assert_eq!(
        track_from_metadata(&Ok(m)).unwrap_err(),
        provider("could not decode MPRIS string: bad")
    );
}

#[test]
fn mpris_metadata_reports_the_first_bad_entry() {
    let mut m = metadata_titled("Forty Six & 2");
    m.artists = Some(Err("no list".into()));
    m.album = Some(Err("no album".into()));
    assert_eq!(
        track_from_metadata(&Ok(m)).unwrap_err(),
        provider("could not decode MPRIS artist list: no list")
    );
    let mut m = metadata_titled("Forty Six & 2");
    m.length = Some(Ok(-5));
    m.art_url = Some(Err("no url".into()));
    assert_eq!(
        track_from_metadata(&Ok(m)).unwrap_err(),
        provider("received a negative MPRIS position")
    );
}

#[test]
fn mpris_metadata_fills_the_track() {
    let m = MprisMetadata {
        title: Some(Ok("Ænema".into())),
        artists: Some(Ok(vec!["Tool".into(), "Other".into()])),
        album: Some(Ok("Ænima".into())),
        length: Some(Ok(400_000_000)),
        art_url: Some(Ok("file:///cover.png".into())),
    };
    let track = track_from_metadata(&Ok(m)).unwrap();
    assert_eq!(track.title, "Ænema");
    assert_eq!(track.artists, vec!["Tool".to_string(), "Other".to_string()]);
    assert_eq!(track.album.as_deref(), Some("Ænima"));
    assert_eq!(track.duration, Some(Duration::from_secs(400)));
    assert_eq!(track.artwork_url.as_deref(), Some("file:///cover.png"));
    assert_eq!(track.url, None);
}

#[test]
fn mpris_changes_give_events_in_order() {
    let source = MediaSource::system("org.mpris.MediaPlayer2.vlc").unwrap();
    let changes = MprisChanges {
        metadata: Some(Ok(metadata_titled("Sober"))),
        playback_status: Some(Ok("Bogus".into())),
        position: Some(Ok(2_000_000)),
    };
    let events = events_from_properties(&source, &changes);
    assert_eq!(events.len(), 3);
    assert!(matches!(&events[0], Ok(e) if matches!(&e.kind, MediaEventKind::TrackChanged { track } if track.title == "Sober")));
    assert_eq!(
        events[1].clone().unwrap_err(),
        provider("received unknown MPRIS playback status: Bogus")
    );
    assert!(matches!(&events[2], Ok(e) if e.kind == MediaEventKind::PositionChanged { position: Duration::from_secs(2) }));
    let none = MprisChanges { metadata: None, playback_status: None, position: None };
    assert!(events_from_properties(&source, &none).is_empty());
    let only_state = MprisChanges { metadata: None, playback_status: Some(Ok("Paused".into())), position: None };
    let events = events_from_properties(&source, &only_state);
    assert_eq!(events.len(), 1);
    assert_eq!(events[0].clone().unwrap().source, source);
}

#[test]
fn initial_mpris_events_stop_at_the_first_error() {
    let source = MediaSource::system("org.mpris.MediaPlayer2.vlc").unwrap();
    let events = initial_events(&source, &Ok(metadata_titled("Sober")), "Playing");
    assert_eq!(events.len(), 2);
    assert!(matches!(&events[1], Ok(e) if e.kind == MediaEventKind::PlaybackStateChanged { state: PlaybackState::Playing }));
    let events = initial_events(&source, &Err("x".into()), "Playing");
    assert_eq!(events.len(), 1);
    assert!(events[0].is_err());
    let events = initial_events(&source, &Ok(metadata_titled("Sober")), "Halted");
    assert_eq!(events.len(), 2);
    assert!(events[0].is_ok() && events[1].is_err());
}

#[test]
fn mpris_player_names_are_checked() {
    assert_eq!(
        player_source(&None).unwrap_err(),
        Error::InvalidMediaData("Linux system provider requires a MPRIS player name".into())
    );
    assert_eq!(
        player_source(&Some("vlc".into())).unwrap_err(),
        Error::InvalidMediaData(
            "Linux MPRIS player names must start with org.mpris.MediaPlayer2.".into()
        )
    );
    let source = player_source(&Some("org.mpris.MediaPlayer2.vlc".into())).unwrap();
    assert_eq!(source, MediaSource::system("org.mpris.MediaPlayer2.vlc").unwrap());
    assert!(is_player_interface("org.mpris.MediaPlayer2.Player"));
    assert!(!is_player_interface("org.mpris.MediaPlayer2"));
    assert!(owner_change_event(&source, true).is_none());
    assert_eq!(owner_change_event(&source, false).unwrap().kind, MediaEventKind::SessionEnded);
}

#[test]
fn gsmtc_statuses_map_to_states() {
    assert_eq!(playback_state_from_gsmtc(4).unwrap(), PlaybackState::Playing);
    assert_eq!(playback_state_from_gsmtc(5).unwrap(), PlaybackState::Paused);
    for closed_like in 0..=3 {
        assert_eq!(playback_state_from_gsmtc(closed_like).unwrap(), PlaybackState::Stopped);
    }
    assert_eq!(
        playback_state_from_gsmtc(-1).unwrap_err(),
        provider("received unknown Windows playback status: -1")
    );
    assert_eq!(
        playback_state_from_gsmtc(6).unwrap_err(),
        provider("received unknown Windows playback status: 6")
    );
}

#[test]
fn windows_ticks_must_fit() {
    assert_eq!(
        duration_from_ticks(-1).unwrap_err(),
        provider("received a negative Windows media time")
    );
    assert_eq!(
        duration_from_ticks(i64::MAX).unwrap_err(),
        provider("Windows media time is too large")
    );
    assert_eq!(duration_from_ticks(0).unwrap(), Duration::from_secs(0));
    assert_eq!(
        timeline_to_duration(&Err("E_FAIL".into())).unwrap_err(),
        provider("could not read the Windows media position: E_FAIL")
    );
    assert_eq!(timeline_to_duration(&Ok(10)).unwrap(), Duration::from_nanos(1000));
}

#[test]
fn windows_properties_make_a_track() {
    let track = track_from_properties(&Ok("Jambi".into()), &Ok("  ".into()), &Ok("10,000 Days".into())).unwrap();
    assert!(track.artists.is_empty());
    assert_eq!(track.album.as_deref(), Some("10,000 Days"));
    let track = track_from_properties(&Ok("Jambi".into()), &Ok("Tool".into()), &Ok("".into())).unwrap();
    assert_eq!(track.artists, vec!["Tool".to_string()]);
    assert_eq!(track.album, None);
    assert_eq!(
        track_from_properties(&Ok(" ".into()), &Err("a".into()), &Ok("b".into())).unwrap_err(),
        Error::InvalidMediaData("track title cannot be empty".into())
    );
    assert_eq!(
        track_from_properties(&Err("t".into()), &Ok("a".into()), &Ok("b".into())).unwrap_err(),
        provider("could not read the Windows media title: t")
    );
    assert_eq!(
        track_from_properties(&Ok("x".into()), &Err("a".into()), &Err("b".into())).unwrap_err(),
        provider("could not read the Windows media artist: a")
    );
    assert_eq!(
        track_from_properties(&Ok("x".into()), &Ok("a".into()), &Err("b".into())).unwrap_err(),
        provider("could not read the Windows media album: b")
    );
}

#[test]
fn windows_events_carry_the_session_source() {
    let source = source_from(&Ok("Spotify.exe".into())).unwrap();
    assert_eq!(source, MediaSource::system("Spotify.exe").unwrap());
    assert_eq!(
        source_from(&Err("gone".into())).unwrap_err(),
        provider("could not identify the Windows media source: gone")
    );
    let e = media_event(&source, &Ok("Pneuma".into()), &Ok("Tool".into()), &Ok("Fear Inoculum".into())).unwrap();
    assert_eq!(e.source, source);
    let e = playback_event(&source, 5).unwrap();
    assert_eq!(e.kind, MediaEventKind::PlaybackStateChanged { state: PlaybackState::Paused });
    let e = position_event(&source, &Ok(20_000_000)).unwrap();
    assert_eq!(e.kind, MediaEventKind::PositionChanged { position: Duration::from_secs(2) });
    assert!(session_lost_event(&None).is_none());
    assert_eq!(session_lost_event(&Some(source.clone())).unwrap().source, source);
}
