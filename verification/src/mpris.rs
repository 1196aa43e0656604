//! The Linux media session over MPRIS: what the player's D-Bus properties
//! mean as media events.
//!
//! The D-Bus values reach this module already decoded, each as the decoded
//! value or the text of the decoding error.
use crate::duration::Duration;
use crate::error::{Error, ErrorView};
use crate::event::{event_result_view, MediaEvent, MediaEventKind, MediaEventView};
use crate::model::{
    new_source_view, opt_text, texts, MediaSource, MediaSourceKindView,
    MediaSourceView, PlaybackState, Track, TrackView,
};
use crate::text::starts_with;
use vstd::prelude::*;
use vstd::string::*;

verus! {

/// The decoded `Metadata` dictionary of an MPRIS player. Each entry is
/// absent, decoded, or the text of the error that decoding it gave.
#[derive(Debug)]
pub struct MprisMetadata {
    /// `xesam:title`, as a string.
    pub title: Option<Result<String, String>>,
    /// `xesam:artist`, as a list of strings.
    pub artists: Option<Result<Vec<String>, String>>,
    /// `xesam:album`, as a string.
    pub album: Option<Result<String, String>>,
    /// `mpris:length`, as a signed count of microseconds.
    pub length: Option<Result<i64, String>>,
    /// `mpris:artUrl`, as a string.
    pub art_url: Option<Result<String, String>>,
}

/// The player properties that one change notification carries, decoded as
/// in [`MprisMetadata`]; the outer error of `metadata` is that of decoding
/// the dictionary itself.
#[derive(Debug)]
pub struct MprisChanges {
    /// `Metadata`.
    pub metadata: Option<Result<MprisMetadata, String>>,
    /// `PlaybackStatus`, as a string.
    pub playback_status: Option<Result<String, String>>,
    /// `Position`, as a signed count of microseconds.
    pub position: Option<Result<i64, String>>,
}

/// The provider error with the given message.
pub open spec fn provider_error(message: Seq<char>) -> ErrorView {
    ErrorView::Provider(message)
}

/// A decoded string, or the error for a string that did not decode.
pub open spec fn string_value_of(value: Result<String, String>) -> Result<Seq<char>, ErrorView> {
    match value {
        Ok(s) => Ok(s@),
        Err(e) => Err(provider_error("could not decode MPRIS string: "@ + e@)),
    }
}

/// A decoded list of strings, or the error for one that did not decode.
pub open spec fn string_list_of(value: Result<Vec<String>, String>) -> Result<
    Seq<Seq<char>>,
    ErrorView,
> {
    match value {
        Ok(v) => Ok(texts(v@)),
        Err(e) => Err(provider_error("could not decode MPRIS artist list: "@ + e@)),
    }
}

/// A position or length in microseconds as a span: the error where it did
/// not decode or is negative.
pub open spec fn position_of(value: Result<i64, String>) -> Result<nat, ErrorView> {
    match value {
        Ok(micros) => if micros < 0 {
            Err(provider_error("received a negative MPRIS position"@))
        } else {
            Ok((micros * 1000) as nat)
        },
        Err(e) => Err(provider_error("could not decode MPRIS position: "@ + e@)),
    }
}

/// The playback state that an MPRIS `PlaybackStatus` names.
pub open spec fn playback_state_of(status: Seq<char>) -> Result<PlaybackState, ErrorView> {
    if status == "Playing"@ {
        Ok(PlaybackState::Playing)
    } else if status == "Paused"@ {
        Ok(PlaybackState::Paused)
    } else if status == "Stopped"@ {
        Ok(PlaybackState::Stopped)
    } else {
        Err(provider_error("received unknown MPRIS playback status: "@ + status))
    }
}

/// The track that a metadata dictionary describes: the first error in the
/// order title, artists, album, length, artwork; the title is required and
/// the other entries are optional.
pub open spec fn track_of(metadata: Result<MprisMetadata, String>) -> Result<TrackView, ErrorView> {
    match metadata {
        Err(e) => Err(provider_error("could not decode MPRIS metadata: "@ + e@)),
        Ok(m) => match m.title {
            None => Err(provider_error("MPRIS metadata is missing xesam:title"@)),
            Some(title) => match string_value_of(title) {
                Err(e) => Err(e),
                Ok(title) => match optional(m.artists, |v| string_list_of(v)) {
                    Err(e) => Err(e),
                    Ok(artists) => match optional(m.album, |v| string_value_of(v)) {
                        Err(e) => Err(e),
                        Ok(album) => match optional(m.length, |v| position_of(v)) {
                            Err(e) => Err(e),
                            Ok(duration) => match optional(m.art_url, |v| string_value_of(v)) {
                                Err(e) => Err(e),
                                Ok(artwork_url) => Ok(
                                    TrackView {
                                        title,
                                        artists: match artists {
                                            Some(a) => a,
                                            None => Seq::empty(),
                                        },
                                        album,
                                        duration,
                                        artwork_url,
                                        url: None,
                                    },
                                ),
                            },
                        },
                    },
                },
            },
        },
    }
}

/// An optional entry decoded by `f`: absent stays absent.
pub open spec fn optional<A, B>(entry: Option<A>, f: spec_fn(A) -> Result<B, ErrorView>) -> Result<
    Option<B>,
    ErrorView,
> {
    match entry {
        None => Ok(None),
        Some(v) => match f(v) {
            Ok(b) => Ok(Some(b)),
            Err(e) => Err(e),
        },
    }
}

/// The view of a track result.
pub open spec fn track_result(r: Result<Track, Error>) -> Result<TrackView, ErrorView> {
    match r {
        Ok(t) => Ok(t@),
        Err(e) => Err(e@),
    }
}

/// The event of a `Metadata` change, or its error.
pub open spec fn track_part(source: MediaSourceView, changes: MprisChanges) -> Seq<Result<MediaEventView, ErrorView>> {
    match changes.metadata {
        Some(m) => seq![
            match track_of(m) {
                Ok(track) => Ok(MediaEventView { source, kind: crate::event::MediaEventKindView::TrackChanged { track } }),
                Err(e) => Err(e),
            },
        ],
        None => Seq::empty(),
    }
}

/// The event of a `PlaybackStatus` change, or its error.
pub open spec fn state_part(source: MediaSourceView, changes: MprisChanges) -> Seq<Result<MediaEventView, ErrorView>> {
    match changes.playback_status {
        Some(status) => seq![
            match string_value_of(status) {
                Ok(name) => match playback_state_of(name) {
                    Ok(state) => Ok(MediaEventView { source, kind: crate::event::MediaEventKindView::PlaybackStateChanged { state } }),
                    Err(e) => Err(e),
                },
                Err(e) => Err(e),
            },
        ],
        None => Seq::empty(),
    }
}

/// The event of a `Position` change, or its error.
pub open spec fn position_part(source: MediaSourceView, changes: MprisChanges) -> Seq<Result<MediaEventView, ErrorView>> {
    match changes.position {
        Some(p) => seq![
            match position_of(p) {
                Ok(position) => Ok(MediaEventView { source, kind: crate::event::MediaEventKindView::PositionChanged { position } }),
                Err(e) => Err(e),
            },
        ],
        None => Seq::empty(),
    }
}

/// The events that a change notification gives, in the order metadata,
/// playback status, position; each property that is present gives one
/// event, or the error of reading it.
pub open spec fn events_of(source: MediaSourceView, changes: MprisChanges) -> Seq<
    Result<MediaEventView, ErrorView>,
> {
    track_part(source, changes) + state_part(source, changes) + position_part(source, changes)
}

/// The error of a provider with `prefix` followed by `detail`.
fn provider_error_with(prefix: &str, detail: &str) -> (e: Error)
    ensures
        e@ == provider_error(prefix@ + detail@),
{
    Error::Provider(String::from_str(prefix).concat(detail))
}

/// The playback state that an MPRIS `PlaybackStatus` names.
pub fn playback_state_name(status: &str) -> (r: Result<PlaybackState, Error>)
    ensures
        match r {
            Ok(state) => playback_state_of(status@) == Ok::<PlaybackState, ErrorView>(state),
            Err(e) => playback_state_of(status@) == Err::<PlaybackState, ErrorView>(e@),
        },
{
    proof {
        reveal_strlit("Playing");
        reveal_strlit("Paused");
        reveal_strlit("Stopped");
    }
    let playing = String::from_str("Playing");
    let paused = String::from_str("Paused");
    let stopped = String::from_str("Stopped");
    let status_text = String::from_str(status);
    if status_text == playing {
        Ok(PlaybackState::Playing)
    } else if status_text == paused {
        Ok(PlaybackState::Paused)
    } else if status_text == stopped {
        Ok(PlaybackState::Stopped)
    } else {
        Err(provider_error_with("received unknown MPRIS playback status: ", status))
    }
}

/// A decoded string, or the error for a string that did not decode.
pub fn string_value(value: &Result<String, String>) -> (r: Result<String, Error>)
    ensures
        match r {
            Ok(s) => string_value_of(*value) == Ok::<Seq<char>, ErrorView>(s@),
            Err(e) => string_value_of(*value) == Err::<Seq<char>, ErrorView>(e@),
        },
{
    match value {
        Ok(s) => Ok(s.clone()),
        Err(e) => Err(provider_error_with("could not decode MPRIS string: ", e.as_str())),
    }
}

/// A decoded list of strings, or the error for one that did not decode.
pub fn string_list(value: &Result<Vec<String>, String>) -> (r: Result<Vec<String>, Error>)
    ensures
        match r {
            Ok(v) => string_list_of(*value) == Ok::<Seq<Seq<char>>, ErrorView>(texts(v@)),
            Err(e) => string_list_of(*value) == Err::<Seq<Seq<char>>, ErrorView>(e@),
        },
{
    match value {
        Ok(v) => {
            let copy = v.clone();
            assert(copy@ =~= v@);
            Ok(copy)
        },
        Err(e) => Err(provider_error_with("could not decode MPRIS artist list: ", e.as_str())),
    }
}

/// A metadata entry that must be present, as a string; `key` names it in
/// the error for a missing entry.
pub fn required_string(entry: &Option<Result<String, String>>, key: &str) -> (r: Result<String, Error>)
    ensures
        *entry is None ==> (r matches Err(e) && e@ == provider_error("MPRIS metadata is missing "@ + key@)),
        *entry matches Some(v) ==> match r {
            Ok(s) => string_value_of(v) == Ok::<Seq<char>, ErrorView>(s@),
            Err(e) => string_value_of(v) == Err::<Seq<char>, ErrorView>(e@),
        },
{
    match entry {
        Some(value) => string_value(value),
        None => Err(provider_error_with("MPRIS metadata is missing ", key)),
    }
}

/// The playback state that a decoded `PlaybackStatus` names.
pub fn playback_state(value: &Result<String, String>) -> (r: Result<PlaybackState, Error>)
    ensures
        match r {
            Ok(state) => (match string_value_of(*value) {
                Ok(name) => playback_state_of(name),
                Err(e) => Err(e),
            }) == Ok::<PlaybackState, ErrorView>(state),
            Err(e) => (match string_value_of(*value) {
                Ok(name) => playback_state_of(name),
                Err(e) => Err(e),
            }) == Err::<PlaybackState, ErrorView>(e@),
        },
{
    let name = string_value(value)?;
    playback_state_name(name.as_str())
}

/// A position or length in microseconds as a span.
pub fn position_from_micros(value: &Result<i64, String>) -> (r: Result<Duration, Error>)
    ensures
        match r {
            Ok(d) => position_of(*value) == Ok::<nat, ErrorView>(d@),
            Err(e) => position_of(*value) == Err::<nat, ErrorView>(e@),
        },
{
    match value {
        Ok(micros) => if *micros < 0 {
            Err(Error::Provider(String::from_str("received a negative MPRIS position")))
        } else {
            Ok(Duration::from_micros(*micros as u64))
        },
        Err(e) => Err(provider_error_with("could not decode MPRIS position: ", e.as_str())),
    }
}

/// The track that a metadata dictionary describes.
pub fn track_from_metadata(metadata: &Result<MprisMetadata, String>) -> (r: Result<Track, Error>)
    ensures
        track_result(r) == track_of(*metadata),
{
    let m = match metadata {
        Ok(m) => m,
        Err(e) => return Err(provider_error_with("could not decode MPRIS metadata: ", e.as_str())),
    };
    proof {
        reveal_strlit("xesam:title");
        reveal_strlit("MPRIS metadata is missing ");
        reveal_strlit("MPRIS metadata is missing xesam:title");
        assert("MPRIS metadata is missing "@ + "xesam:title"@ =~= "MPRIS metadata is missing xesam:title"@);
    }
    let title = required_string(&m.title, "xesam:title")?;
    let artists = match &m.artists {
        Some(artists) => string_list(artists)?,
        None => Vec::new(),
    };
    let album = match &m.album {
        Some(album) => Some(string_value(album)?),
        None => None,
    };
    let duration = match &m.length {
        Some(length) => Some(position_from_micros(length)?),
        None => None,
    };
    let artwork_url = match &m.art_url {
        Some(url) => Some(string_value(url)?),
        None => None,
    };
    let track = Track { title, artists, album, duration, artwork_url, url: None };
    proof {
        if m.artists is None {
            assert(texts(track.artists@) =~= Seq::<Seq<char>>::empty());
        }
    }
    Ok(track)
}

/// The view of a list of event results.
pub open spec fn event_results(v: Seq<Result<MediaEvent, Error>>) -> Seq<Result<MediaEventView, ErrorView>> {
    v.map_values(|r: Result<MediaEvent, Error>| event_result_view(r))
}

/// The events that a change notification gives: one for each of the
/// metadata, the playback status and the position that it carries, in that
/// order.
pub fn events_from_properties(source: &MediaSource, changes: &MprisChanges) -> (events: Vec<
    Result<MediaEvent, Error>,
>)
    ensures
        event_results(events@) == events_of(source@, *changes),
{
    let mut events: Vec<Result<MediaEvent, Error>> = Vec::new();
    if let Some(metadata) = &changes.metadata {
        let event = match track_from_metadata(metadata) {
            Ok(track) => Ok(MediaEvent { source: source.clone(), kind: MediaEventKind::TrackChanged { track } }),
            Err(e) => Err(e),
        };
        events.push(event);
    }
    assert(event_results(events@) =~= track_part(source@, *changes));
    let ghost before = events@;
    if let Some(status) = &changes.playback_status {
        let event = match playback_state(status) {
            Ok(state) => Ok(MediaEvent { source: source.clone(), kind: MediaEventKind::PlaybackStateChanged { state } }),
            Err(e) => Err(e),
        };
        events.push(event);
    }
    assert(event_results(events@) =~= event_results(before) + state_part(source@, *changes));
    let ghost middle = events@;
    if let Some(position) = &changes.position {
        let event = match position_from_micros(position) {
            Ok(position) => Ok(MediaEvent { source: source.clone(), kind: MediaEventKind::PositionChanged { position } }),
            Err(e) => Err(e),
        };
        events.push(event);
    }
    assert(event_results(events@) =~= event_results(middle) + position_part(source@, *changes));
    events
}

/// The events that the first reading of a player gives: the track, then
/// the playback state; reading stops at the first error, which comes last.
pub open spec fn initial_events_of(source: MediaSourceView, metadata: Result<MprisMetadata, String>, status: Seq<char>) -> Seq<Result<MediaEventView, ErrorView>> {
    match track_of(metadata) {
        Err(e) => seq![Err(e)],
        Ok(track) => {
            let first = Ok(MediaEventView { source, kind: crate::event::MediaEventKindView::TrackChanged { track } });
            match playback_state_of(status) {
                Ok(state) => seq![first, Ok(MediaEventView { source, kind: crate::event::MediaEventKindView::PlaybackStateChanged { state } })],
                Err(e) => seq![first, Err(e)],
            }
        },
    }
}

/// The events that the first reading of a player's `Metadata` and
/// `PlaybackStatus` gives, in the order they are to be sent.
pub fn initial_events(source: &MediaSource, metadata: &Result<MprisMetadata, String>, status: &str) -> (events: Vec<Result<MediaEvent, Error>>)
    ensures
        event_results(events@) == initial_events_of(source@, *metadata, status@),
{
    let mut events: Vec<Result<MediaEvent, Error>> = Vec::new();
    let track = match track_from_metadata(metadata) {
        Ok(track) => track,
        Err(e) => {
            events.push(Err(e));
            assert(event_results(events@) =~= initial_events_of(source@, *metadata, status@));
            return events;
        },
    };
    events.push(Ok(MediaEvent::track_changed(source.clone(), track)));
    match playback_state_name(status) {
        Ok(state) => events.push(Ok(MediaEvent::playback_state_changed(source.clone(), state))),
        Err(e) => events.push(Err(e)),
    }
    assert(event_results(events@) =~= initial_events_of(source@, *metadata, status@));
    events
}

/// The prefix of every MPRIS player's bus name.
pub open spec fn mpris_prefix() -> Seq<char> {
    "org.mpris.MediaPlayer2."@
}

/// The source of a Linux session: the player's bus name is required and
/// must be an MPRIS name.
pub open spec fn player_source_of(player: Option<Seq<char>>) -> Result<MediaSourceView, ErrorView> {
    match player {
        None => Err(ErrorView::InvalidMediaData("Linux system provider requires a MPRIS player name"@)),
        Some(name) => if !mpris_prefix().is_prefix_of(name) {
            Err(ErrorView::InvalidMediaData("Linux MPRIS player names must start with org.mpris.MediaPlayer2."@))
        } else {
            new_source_view(MediaSourceKindView::System, name)
        },
    }
}

/// The source of the Linux session of the player with the given bus name.
pub fn player_source(player: &Option<String>) -> (r: Result<MediaSource, Error>)
    ensures
        crate::model::source_result_view(r) == player_source_of(opt_text(*player)),
{
    let player = match player {
        Some(player) => player,
        None => return Err(Error::InvalidMediaData(String::from_str("Linux system provider requires a MPRIS player name"))),
    };
    if !starts_with(player.as_str(), "org.mpris.MediaPlayer2.") {
        return Err(Error::InvalidMediaData(String::from_str("Linux MPRIS player names must start with org.mpris.MediaPlayer2.")));
    }
    MediaSource::system(player.as_str())
}

/// The D-Bus interface of an MPRIS player.
pub open spec fn player_interface() -> Seq<char> {
    "org.mpris.MediaPlayer2.Player"@
}

/// Whether a property change belongs to the player interface; changes of
/// other interfaces are ignored.
pub fn is_player_interface(interface: &str) -> (b: bool)
    ensures
        b == (interface@ == player_interface()),
{
    String::from_str(interface) == String::from_str("org.mpris.MediaPlayer2.Player")
}

/// The event for a change of the owner of the player's bus name: the
/// session ends when the name loses its owner.
pub fn owner_change_event(source: &MediaSource, has_owner: bool) -> (e: Option<MediaEvent>)
    ensures
        has_owner ==> e is None,
        !has_owner ==> (e matches Some(e) && e@ == (MediaEventView { source: source@, kind: crate::event::MediaEventKindView::SessionEnded })),
{
    if has_owner {
        None
    } else {
        Some(MediaEvent::session_ended(source.clone()))
    }
}

/// MPRIS names the three playback states by their English names; any other
/// status is refused.
pub proof fn lemma_status_names(status: Seq<char>)
    ensures
        playback_state_of("Playing"@) == Ok::<PlaybackState, ErrorView>(PlaybackState::Playing),
        playback_state_of("Paused"@) == Ok::<PlaybackState, ErrorView>(PlaybackState::Paused),
        playback_state_of("Stopped"@) == Ok::<PlaybackState, ErrorView>(PlaybackState::Stopped),
        playback_state_of(status) is Ok <==> (status == "Playing"@ || status == "Paused"@ || status
            == "Stopped"@),
{
    reveal_strlit("Playing");
    reveal_strlit("Paused");
    reveal_strlit("Stopped");
    assert("Paused"@ != "Playing"@) by {
        assert("Paused"@[1] != "Playing"@[1]);
    }
    assert("Stopped"@ != "Playing"@) by {
        assert("Stopped"@[0] != "Playing"@[0]);
    }
    assert("Stopped"@ != "Paused"@) by {
        assert("Stopped"@.len() != "Paused"@.len());
    }
}

/// A position in microseconds that is not negative is that many thousands
/// of nanoseconds; a negative one is refused.
pub proof fn lemma_positions(micros: i64)
    ensures
        micros >= 0 ==> position_of(Ok(micros)) == Ok::<nat, ErrorView>((micros * 1000) as nat),
        micros < 0 ==> position_of(Ok(micros)) is Err,
{
}

/// Metadata whose entries all decode makes a track that keeps each of them:
/// the title, the artists (none where absent), the album, the artwork, and
/// the length as a span where it is not negative; there is no url.
pub proof fn lemma_metadata_kept(m: MprisMetadata)
    requires
        m.title matches Some(Ok(_)),
        !(m.artists matches Some(Err(_))),
        !(m.album matches Some(Err(_))),
        !(m.art_url matches Some(Err(_))),
        m.length matches Some(l) ==> (l matches Ok(us) && us >= 0),
    ensures
        track_of(Ok(m)) matches Ok(v) && {
            &&& v.title == m.title->0->Ok_0@
            &&& m.artists is None ==> v.artists == Seq::<Seq<char>>::empty()
            &&& m.artists matches Some(Ok(a)) ==> v.artists == texts(a@)
            &&& v.album == opt_text(match m.album { Some(Ok(a)) => Some(a), _ => None })
            &&& v.artwork_url == opt_text(match m.art_url { Some(Ok(a)) => Some(a), _ => None })
            &&& m.length is None ==> v.duration is None
            &&& m.length matches Some(Ok(us)) ==> v.duration == Some((us * 1000) as nat)
            &&& v.url is None
        },
{
}

} // verus!
