//! The Windows media session over the Global System Media Transport
//! Controls: what the session's properties mean as media events.
//!
//! The WinRT values reach this module already read, each as the value or
//! the text of the WinRT error that reading it gave.
use crate::duration::Duration;
use crate::error::{Error, ErrorView};
use crate::event::{event_result_view, MediaEvent, MediaEventKindView, MediaEventView};
use crate::model::{
    new_source_view, new_track_view, source_result_view, texts, MediaSource, MediaSourceKindView,
    MediaSourceView, PlaybackState, Track, TrackView,
};
use crate::text::{is_blank, is_blank_str, push_signed_decimal, signed_decimal};
use vstd::prelude::*;
use vstd::string::*;

verus! {

/// The provider error of a failed WinRT read: the context, a colon and the
/// WinRT error.
pub open spec fn read_error(context: Seq<char>, error: Seq<char>) -> ErrorView {
    ErrorView::Provider(context + ": "@ + error)
}

fn read_error_with(context: &str, error: &String) -> (e: Error)
    ensures
        e@ == read_error(context@, error@),
{
    Error::Provider(String::from_str(context).concat(": ").concat(error.as_str()))
}

/// The source of a session whose application id was read as `app_id`.
pub open spec fn source_of(app_id: Result<String, String>) -> Result<MediaSourceView, ErrorView> {
    match app_id {
        Err(e) => Err(read_error("could not identify the Windows media source"@, e@)),
        Ok(id) => new_source_view(MediaSourceKindView::System, id@),
    }
}

/// The source of a session, from the read of its application user model id.
pub fn source_from(app_id: &Result<String, String>) -> (r: Result<MediaSource, Error>)
    ensures
        source_result_view(r) == source_of(*app_id),
{
    match app_id {
        Err(e) => Err(read_error_with("could not identify the Windows media source", e)),
        Ok(id) => MediaSource::system(id.as_str()),
    }
}

/// The track that a session's title, artist and album describe: the title
/// is required and not blank; a blank artist or album counts as absent.
pub open spec fn track_of(
    title: Result<String, String>,
    artist: Result<String, String>,
    album: Result<String, String>,
) -> Result<TrackView, ErrorView> {
    match title {
        Err(e) => Err(read_error("could not read the Windows media title"@, e@)),
        Ok(title) => match new_track_view(title@) {
            Err(e) => Err(e),
            Ok(track) => match artist {
                Err(e) => Err(read_error("could not read the Windows media artist"@, e@)),
                Ok(artist) => match album {
                    Err(e) => Err(read_error("could not read the Windows media album"@, e@)),
                    Ok(album) => Ok(
                        TrackView {
                            artists: if is_blank(artist@) {
                                Seq::empty()
                            } else {
                                seq![artist@]
                            },
                            album: if is_blank(album@) {
                                None
                            } else {
                                Some(album@)
                            },
                            ..track
                        },
                    ),
                },
            },
        },
    }
}

/// The track that a session's media properties describe.
pub fn track_from_properties(
    title: &Result<String, String>,
    artist: &Result<String, String>,
    album: &Result<String, String>,
) -> (r: Result<Track, Error>)
    ensures
        crate::model::track_result_view(r) == track_of(*title, *artist, *album),
{
    let title = match title {
        Ok(title) => title,
        Err(e) => return Err(read_error_with("could not read the Windows media title", e)),
    };
    let mut track = Track::new(title.as_str())?;
    let artist = match artist {
        Ok(artist) => artist,
        Err(e) => return Err(read_error_with("could not read the Windows media artist", e)),
    };
    let album = match album {
        Ok(album) => album,
        Err(e) => return Err(read_error_with("could not read the Windows media album", e)),
    };
    if !is_blank_str(artist.as_str()) {
        track.artists.push(artist.clone());
    }
    if !is_blank_str(album.as_str()) {
        track.album = Some(album.clone());
    }
    assert(texts(track.artists@) =~= (if is_blank(artist@) {
        Seq::empty()
    } else {
        seq![artist@]
    }));
    Ok(track)
}

/// The playback state that a GSMTC playback status code names: closed,
/// opened, changing and stopped all count as stopped.
pub open spec fn playback_state_of(status: i32) -> Result<PlaybackState, ErrorView> {
    if status == 4 {
        Ok(PlaybackState::Playing)
    } else if status == 5 {
        Ok(PlaybackState::Paused)
    } else if 0 <= status <= 3 {
        Ok(PlaybackState::Stopped)
    } else {
        Err(
            ErrorView::Provider(
                "received unknown Windows playback status: "@ + signed_decimal(status as int),
            ),
        )
    }
}

/// The playback state that a GSMTC playback status code names. The codes
/// are those of `GlobalSystemMediaTransportControlsSessionPlaybackStatus`:
/// closed 0, opened 1, changing 2, stopped 3, playing 4, paused 5.
pub fn playback_state_from_gsmtc(status: i32) -> (r: Result<PlaybackState, Error>)
    ensures
        match r {
            Ok(state) => playback_state_of(status) == Ok::<PlaybackState, ErrorView>(state),
            Err(e) => playback_state_of(status) == Err::<PlaybackState, ErrorView>(e@),
        },
{
    if status == 4 {
        Ok(PlaybackState::Playing)
    } else if status == 5 {
        Ok(PlaybackState::Paused)
    } else if 0 <= status && status <= 3 {
        Ok(PlaybackState::Stopped)
    } else {
        let mut message = String::from_str("received unknown Windows playback status: ");
        push_signed_decimal(&mut message, status as i64);
        Err(Error::Provider(message))
    }
}

/// A media time in ticks of 100 nanoseconds as a span: the error where it
/// is negative or does not fit.
pub open spec fn ticks_of(ticks: i64) -> Result<nat, ErrorView> {
    if ticks < 0 {
        Err(ErrorView::Provider("received a negative Windows media time"@))
    } else if ticks * 100 > u64::MAX {
        Err(ErrorView::Provider("Windows media time is too large"@))
    } else {
        Ok((ticks * 100) as nat)
    }
}

/// A media time in ticks of 100 nanoseconds as a span.
pub fn duration_from_ticks(ticks: i64) -> (r: Result<Duration, Error>)
    ensures
        match r {
            Ok(d) => ticks_of(ticks) == Ok::<nat, ErrorView>(d@),
            Err(e) => ticks_of(ticks) == Err::<nat, ErrorView>(e@),
        },
{
    if ticks < 0 {
        return Err(Error::Provider(String::from_str("received a negative Windows media time")));
    }
    let nanos = match (ticks as u64).checked_mul(100) {
        Some(nanos) => nanos,
        None => return Err(Error::Provider(String::from_str("Windows media time is too large"))),
    };
    Ok(Duration::from_nanos(nanos))
}

/// The position of a session's timeline, from the read of its position in
/// ticks.
pub open spec fn timeline_of(position: Result<i64, String>) -> Result<nat, ErrorView> {
    match position {
        Err(e) => Err(read_error("could not read the Windows media position"@, e@)),
        Ok(ticks) => ticks_of(ticks),
    }
}

/// The position of a session's timeline.
pub fn timeline_to_duration(position: &Result<i64, String>) -> (r: Result<Duration, Error>)
    ensures
        match r {
            Ok(d) => timeline_of(*position) == Ok::<nat, ErrorView>(d@),
            Err(e) => timeline_of(*position) == Err::<nat, ErrorView>(e@),
        },
{
    match position {
        Err(e) => Err(read_error_with("could not read the Windows media position", e)),
        Ok(ticks) => duration_from_ticks(*ticks),
    }
}

/// The track event of a session, from the reads of its media properties.
pub fn media_event(
    source: &MediaSource,
    title: &Result<String, String>,
    artist: &Result<String, String>,
    album: &Result<String, String>,
) -> (r: Result<MediaEvent, Error>)
    ensures
        event_result_view(r) == match track_of(*title, *artist, *album) {
            Ok(track) => Ok(MediaEventView { source: source@, kind: MediaEventKindView::TrackChanged { track } }),
            Err(e) => Err(e),
        },
{
    let track = track_from_properties(title, artist, album)?;
    Ok(MediaEvent::track_changed(source.clone(), track))
}

/// The playback event of a session, from its playback status code.
pub fn playback_event(source: &MediaSource, status: i32) -> (r: Result<MediaEvent, Error>)
    ensures
        event_result_view(r) == match playback_state_of(status) {
            Ok(state) => Ok(MediaEventView { source: source@, kind: MediaEventKindView::PlaybackStateChanged { state } }),
            Err(e) => Err(e),
        },
{
    let state = playback_state_from_gsmtc(status)?;
    Ok(MediaEvent::playback_state_changed(source.clone(), state))
}

/// The position event of a session, from the read of its timeline position.
pub fn position_event(source: &MediaSource, position: &Result<i64, String>) -> (r: Result<MediaEvent, Error>)
    ensures
        event_result_view(r) == match timeline_of(*position) {
            Ok(position) => Ok(MediaEventView { source: source@, kind: MediaEventKindView::PositionChanged { position } }),
            Err(e) => Err(e),
        },
{
    let position = timeline_to_duration(position)?;
    Ok(MediaEvent::position_changed(source.clone(), position))
}

/// The event for the loss of the current session: the previous session, if
/// any, ends.
pub fn session_lost_event(previous: &Option<MediaSource>) -> (e: Option<MediaEvent>)
    ensures
        previous is None ==> e is None,
        previous matches Some(p) ==> (e matches Some(e) && e@ == (MediaEventView { source: p@, kind: MediaEventKindView::SessionEnded })),
{
    match previous {
        Some(source) => Some(MediaEvent::session_ended(source.clone())),
        None => None,
    }
}

/// Title, artist and album that were all read make a track of that title
/// where the title is not blank; the artist and the album are each kept
/// where not blank, independently of each other.
pub proof fn lemma_properties_kept(title: String, artist: String, album: String)
    requires
        !is_blank(title@),
    ensures
        track_of(Ok(title), Ok(artist), Ok(album)) matches Ok(v) && {
            &&& v.title == title@
            &&& is_blank(artist@) ==> v.artists == Seq::<Seq<char>>::empty()
            &&& !is_blank(artist@) ==> v.artists == seq![artist@]
            &&& is_blank(album@) ==> v.album is None
            &&& !is_blank(album@) ==> v.album == Some(album@)
            &&& v.duration is None
            &&& v.artwork_url is None
            &&& v.url is None
        },
{
}

/// The album a track gets does not depend on the artist read with it.
pub proof fn lemma_album_independent_of_artist(title: String, a1: String, a2: String, album: String)
    requires
        !is_blank(title@),
    ensures
        track_of(Ok(title), Ok(a1), Ok(album))->Ok_0.album == track_of(Ok(title), Ok(a2), Ok(album))->Ok_0.album,
{
}

/// The GSMTC status codes: playing 4 and paused 5 map to themselves, the
/// codes 0 to 3 to stopped, and any other code is refused.
pub proof fn lemma_status_codes(status: i32)
    ensures
        status == 4 <==> playback_state_of(status) == Ok::<PlaybackState, ErrorView>(PlaybackState::Playing),
        status == 5 <==> playback_state_of(status) == Ok::<PlaybackState, ErrorView>(PlaybackState::Paused),
        0 <= status <= 3 <==> playback_state_of(status) == Ok::<PlaybackState, ErrorView>(PlaybackState::Stopped),
        (status < 0 || status > 5) <==> playback_state_of(status) is Err,
{
}

/// A media time in ticks is that many hundreds of nanoseconds, refused only
/// when negative or too long for a `u64` count of nanoseconds.
pub proof fn lemma_ticks(ticks: i64)
    ensures
        0 <= ticks && ticks * 100 <= u64::MAX ==> ticks_of(ticks) == Ok::<nat, ErrorView>((ticks * 100) as nat),
        ticks_of(ticks) is Err <==> (ticks < 0 || ticks * 100 > u64::MAX),
{
}

} // verus!
