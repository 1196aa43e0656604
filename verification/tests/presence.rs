use sonata::activity::{
    build_activity, build_activity_at, duration_to_millis, large_text, millis_since_epoch,
    state_text, timestamps, timestamps_at, unix_millis, ActivityKind, Timestamps,
};
use sonata::config::{ConfigError, DiscordConfig, ProviderKind, RuntimeConfig, SystemConfig};
use sonata::daemon::{recovery_after_failure, Recovery};
use sonata::discord::{DiscordClient, Error as RpcError};
use sonata::duration::Duration;
use sonata::error::Error;
use sonata::event::MediaEvent;
use sonata::model::{MediaSource, PlaybackState, Track};
use sonata::publisher::DiscordPublisher;

fn lateralus() -> Track {
    let mut track = Track::new("Lateralus").unwrap();
    track.artists = vec!["Tool".into(), "Maynard".into()];
    track.duration = Some(Duration::from_secs(563));
    track
}

#[test]
fn activity_texts_fall_back_in_order() {
    let mut track = Track::new("Reflection").unwrap();
    assert_eq!(state_text(&track), "by Unknown Artist");
    assert_eq!(large_text(&track), "Unknown Artist");
    track.artists.push("Tool".into());
    assert_eq!(state_text(&track), "by Tool");
    assert_eq!(large_text(&track), "Tool");
    track.album = Some("Lateralus".into());
    assert_eq!(large_text(&track), "Lateralus");
}

#[test]
fn a_playing_track_shows_its_progress() {
    let activity = build_activity_at(&lateralus(), PlaybackState::Playing, Some(Duration::from_secs(60)), Some(1_000_000));
    assert_eq!(activity.name, "Sonata");
    assert_eq!(activity.details, "Lateralus");
    assert_eq!(activity.state, "by Tool");
    assert_eq!(activity.large_image, "leon");
    assert_eq!(activity.large_text, "Tool");
    assert_eq!(activity.small_image, "sonata");
    assert_eq!(activity.small_text, "Sonata");
    assert_eq!(activity.kind, ActivityKind::Listening);
    assert_eq!(activity.timestamps, Some(Timestamps { start: 940_000, end: 1_503_000 }));
}

#[test]
fn progress_needs_playing_a_length_a_position_and_a_clock() {
    let track = lateralus();
    let pos = Some(Duration::from_secs(1));
    assert_eq!(build_activity_at(&track, PlaybackState::Paused, pos, Some(5_000)).timestamps, None);
    assert_eq!(build_activity_at(&track, PlaybackState::Playing, None, Some(5_000)).timestamps, None);
    assert_eq!(build_activity_at(&track, PlaybackState::Playing, pos, None).timestamps, None);
    let mut no_length = track.clone();
    no_length.duration = None;
    assert_eq!(build_activity_at(&no_length, PlaybackState::Playing, pos, Some(5_000)).timestamps, None);
    let mut art = track.clone();
    art.artwork_url = Some("https://img/x.jpg".into());
    assert_eq!(build_activity_at(&art, PlaybackState::Paused, pos, None).large_image, "https://img/x.jpg");
    let paused = build_activity(&track, PlaybackState::Paused, pos).unwrap();
    assert_eq!(paused.timestamps, None);
}

#[test]
fn timestamps_stay_within_i64() {
    assert_eq!(timestamps_at(Some(i64::MIN), Duration::from_secs(1), Duration::from_millis(1)), None);
    assert_eq!(timestamps_at(Some(i64::MAX), Duration::from_millis(1), Duration::from_millis(0)), None);
    assert_eq!(
        timestamps_at(Some(10), Duration::from_millis(5), Duration::from_millis(20)),
        Some(Timestamps { start: -10, end: -5 })
    );
    assert_eq!(duration_to_millis(Duration::from_micros(1999)), Some(1));
    assert_eq!(duration_to_millis(Duration::new(u64::MAX, 0)), None);
}

#[test]
fn the_clock_reads_unix_milliseconds() {
    let now = unix_millis().unwrap();
    assert!(now > 1_600_000_000_000);
    let t = timestamps(Duration::from_secs(10), Duration::from_secs(4)).unwrap();
    assert_eq!(t.end - t.start, 10_000);
    assert!(t.start <= now - 4_000 + 60_000 && t.start >= now - 4_000 - 60_000);
    let playing = build_activity(&lateralus(), PlaybackState::Playing, Some(Duration::from_secs(0))).unwrap();
    assert_eq!(playing.timestamps.map(|t| t.end - t.start), Some(563_000));
}

#[test]
fn discord_needs_a_client_id() {
    assert!(matches!(DiscordClient::new(" "), Err(RpcError::MissingClientId)));
    assert_eq!(RpcError::MissingClientId.message(), "discord client id is missing");
    assert_eq!(
        DiscordPublisher::connect("").err().unwrap(),
        Error::Publisher("discord client id is missing".into())
    );
}

#[test]
fn clearing_with_nothing_shown_sends_nothing() {
    let client = DiscordClient::new("1234567890").unwrap();
    let mut publisher = DiscordPublisher::with_client(client);
    let source = MediaSource::browser("music.youtube.com").unwrap();
    publisher.publish(&MediaEvent::position_changed(source.clone(), Duration::from_secs(3))).unwrap();
    publisher.publish(&MediaEvent::playback_state_changed(source.clone(), PlaybackState::Stopped)).unwrap();
    publisher.publish(&MediaEvent::session_ended(source)).unwrap();
    publisher.clear().unwrap();
    publisher.shutdown().unwrap();
}

#[test]
fn a_failed_send_reports_a_publisher_error() {
    let client = DiscordClient::new("1234567890").unwrap();
    let mut publisher = DiscordPublisher::with_client(client);
    let source = MediaSource::browser("music.youtube.com").unwrap();
    let error = publisher.publish(&MediaEvent::track_changed(source, lateralus())).unwrap_err();
    match error {
        Error::Publisher(message) => assert!(message.starts_with("discord IPC error: ")),
        other => panic!("unexpected error {other:?}"),
    }
}

fn config(provider: ProviderKind, player: Option<&str>, client_id: Option<&str>) -> RuntimeConfig {
    RuntimeConfig {
        provider,
        system: SystemConfig { player: player.map(String::from) },
        discord: DiscordConfig { client_id: client_id.map(String::from) },
    }
}

#[test]
fn validation_checks_the_player_then_the_client_id() {
    let none: Option<String> = None;
    assert_eq!(config(ProviderKind::System, None, None).validate(&none, true), Err(ConfigError::MissingSystemPlayer));
    assert_eq!(config(ProviderKind::System, Some(" "), Some("1")).validate(&none, true), Err(ConfigError::MissingSystemPlayer));
    assert_eq!(config(ProviderKind::System, None, Some("1")).validate(&none, false), Ok(()));
    assert_eq!(config(ProviderKind::Browser, None, Some("1")).validate(&none, true), Ok(()));
    assert_eq!(config(ProviderKind::Browser, None, None).validate(&none, true), Err(ConfigError::MissingDiscordClientId));
    assert_eq!(config(ProviderKind::Browser, None, Some("  ")).validate(&Some("9".into()), true), Err(ConfigError::MissingDiscordClientId));
    assert_eq!(config(ProviderKind::Browser, None, None).validate(&Some("9".into()), true), Ok(()));
    assert_eq!(config(ProviderKind::Browser, None, Some("1")).discord_client_id(&Some("9".into())), Some("1".to_string()));
    assert_eq!(config(ProviderKind::Browser, None, None).discord_client_id(&Some("9".into())), Some("9".to_string()));
    assert_eq!(
        ConfigError::MissingDiscordClientId.message(),
        "discord client id is missing; set discord.client_id or SONATA_DISCORD_CLIENT_ID"
    );
    assert_eq!(
        ConfigError::Read { path: "/x/sonata.toml".into(), reason: "not found".into() }.message(),
        "could not read runtime config at /x/sonata.toml: not found"
    );
}

#[test]
fn only_the_system_provider_is_reconnected() {
    assert_eq!(recovery_after_failure(ProviderKind::System), Recovery::ReconnectAfter(Duration::from_secs(1)));
    assert_eq!(recovery_after_failure(ProviderKind::Browser), Recovery::ClearAndStop);
}

#[test]
fn clock_readings_become_unix_milliseconds() {
    assert_eq!(millis_since_epoch(None), None);
    assert_eq!(millis_since_epoch(Some((1_700_000_000, 999_999_999))), Some(1_700_000_000_999));
    assert_eq!(millis_since_epoch(Some((0, 1_999_999))), Some(1));
    assert_eq!(millis_since_epoch(Some((u64::MAX, 0))), None);
}

#[test]
fn publishing_at_a_clock_reading_without_discord() {
    let client = DiscordClient::new("1234567890").unwrap();
    let mut publisher = DiscordPublisher::with_client(client);
    let source = MediaSource::browser("music.youtube.com").unwrap();
    publisher
        .publish_at(&MediaEvent::position_changed(source.clone(), Duration::from_secs(3)), Some(1_000))
        .unwrap();
    let error = publisher
        .publish_at(&MediaEvent::track_changed(source.clone(), lateralus()), Some(1_000))
        .unwrap_err();
    assert!(matches!(error, Error::Publisher(ref text) if text.starts_with("discord IPC error: ")));
    publisher.publish_at(&MediaEvent::session_ended(source), None).unwrap();
}
