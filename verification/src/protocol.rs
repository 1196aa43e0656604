//! The wire format exchanged with the browser extension over Native
//! Messaging, and its normalisation into the media model.
//!
//! The extension sends durations as floating-point milliseconds; they reach
//! this module already checked, as a [`WireMillis`].
use crate::duration::Duration;
use crate::error::{Error, ErrorView};
use crate::event::{event_result_view, MediaEvent, MediaEventKindView, MediaEventView};
use crate::model::{
    new_source_view, new_track_view, opt_text, texts, MediaSource, MediaSourceKindView,
    PlaybackState, Track, TrackView,
};
use crate::text::is_blank;
use vstd::prelude::*;
use vstd::string::*;

verus! {

/// The source of a wire message.
#[derive(Debug)]
pub struct WireSource {
    /// Always "browser" today; kept for compatibility.
    pub kind: String,
    pub application: String,
}

/// A span in milliseconds as the extension sent it: a span, where the value
/// was finite and not negative.
#[derive(Debug, Clone, Copy)]
pub enum WireMillis {
    Valid(Duration),
    Invalid,
}

/// The playback state as the extension names it.
#[derive(Debug, Clone, Copy, PartialEq, Eq, Structural)]
pub enum WirePlaybackState {
    Playing,
    Paused,
    Stopped,
}

/// A track as the extension describes it.
#[derive(Debug)]
pub struct WireTrack {
    pub title: String,
    pub artists: Vec<String>,
    pub album: Option<String>,
    pub duration_ms: Option<WireMillis>,
    pub artwork_url: Option<String>,
    pub url: Option<String>,
}

/// The change that a wire message reports.
#[derive(Debug)]
pub enum WireEventKind {
    TrackChanged { track: WireTrack },
    PlaybackStateChanged { state: WirePlaybackState },
    PositionChanged { position_ms: WireMillis },
    SessionEnded,
}

/// One message of the extension.
#[derive(Debug)]
pub struct WireMessage {
    pub source: WireSource,
    pub kind: WireEventKind,
}

/// The playback state that a wire state names, variant for variant.
pub open spec fn state_of(state: WirePlaybackState) -> PlaybackState {
    match state {
        WirePlaybackState::Playing => PlaybackState::Playing,
        WirePlaybackState::Paused => PlaybackState::Paused,
        WirePlaybackState::Stopped => PlaybackState::Stopped,
    }
}

impl From<WirePlaybackState> for PlaybackState {
    fn from(state: WirePlaybackState) -> (s: PlaybackState)
        ensures
            s == state_of(state),
    {
        match state {
            WirePlaybackState::Playing => PlaybackState::Playing,
            WirePlaybackState::Paused => PlaybackState::Paused,
            WirePlaybackState::Stopped => PlaybackState::Stopped,
        }
    }
}

impl vstd::std_specs::convert::FromSpecImpl<WirePlaybackState> for PlaybackState {
    open spec fn obeys_from_spec() -> bool {
        true
    }

    open spec fn from_spec(state: WirePlaybackState) -> PlaybackState {
        state_of(state)
    }
}

/// The message of the error for a span the extension sent that is negative
/// or not finite.
pub open spec fn invalid_duration_message() -> Seq<char> {
    "received a negative or non-finite duration from the browser"@
}

/// The span of a wire span, or the error for an invalid one.
pub open spec fn millis_of(millis: WireMillis) -> Result<nat, ErrorView> {
    match millis {
        WireMillis::Valid(d) => Ok(d@),
        WireMillis::Invalid => Err(ErrorView::InvalidMediaData(invalid_duration_message())),
    }
}

/// The span of a wire span.
pub fn duration_from_millis(millis: WireMillis) -> (r: Result<Duration, Error>)
    ensures
        match r {
            Ok(d) => millis_of(millis) == Ok::<nat, ErrorView>(d@),
            Err(e) => millis_of(millis) == Err::<nat, ErrorView>(e@),
        },
{
    match millis {
        WireMillis::Valid(d) => Ok(d),
        WireMillis::Invalid => Err(
            Error::InvalidMediaData(
                String::from_str("received a negative or non-finite duration from the browser"),
            ),
        ),
    }
}

/// The track that a wire track describes: the title must not be blank and
/// the length, where present, must be valid; the rest is taken as it is.
pub open spec fn track_of(track: WireTrack) -> Result<TrackView, ErrorView> {
    match new_track_view(track.title@) {
        Err(e) => Err(e),
        Ok(bare) => match track.duration_ms {
            Some(m) if millis_of(m) is Err => Err(millis_of(m)->Err_0),
            _ => Ok(
                TrackView {
                    artists: texts(track.artists@),
                    album: opt_text(track.album),
                    duration: match track.duration_ms {
                        Some(m) => Some(millis_of(m)->Ok_0),
                        None => None,
                    },
                    artwork_url: opt_text(track.artwork_url),
                    url: opt_text(track.url),
                    ..bare
                },
            ),
        },
    }
}

/// The event that a wire message reports: the application must not be
/// blank, and the track or position it carries must be valid.
pub open spec fn event_of(message: WireMessage) -> Result<MediaEventView, ErrorView> {
    match new_source_view(MediaSourceKindView::Browser, message.source.application@) {
        Err(e) => Err(e),
        Ok(source) => match message.kind {
            WireEventKind::TrackChanged { track } => match track_of(track) {
                Ok(track) => Ok(MediaEventView { source, kind: MediaEventKindView::TrackChanged { track } }),
                Err(e) => Err(e),
            },
            WireEventKind::PlaybackStateChanged { state } => Ok(
                MediaEventView { source, kind: MediaEventKindView::PlaybackStateChanged { state: state_of(state) } },
            ),
            WireEventKind::PositionChanged { position_ms } => match millis_of(position_ms) {
                Ok(position) => Ok(MediaEventView { source, kind: MediaEventKindView::PositionChanged { position } }),
                Err(e) => Err(e),
            },
            WireEventKind::SessionEnded => Ok(
                MediaEventView { source, kind: MediaEventKindView::SessionEnded },
            ),
        },
    }
}

impl WireTrack {
    /// The track this wire track describes.
    pub fn into_track(self) -> (r: Result<Track, Error>)
        ensures
            crate::model::track_result_view(r) == track_of(self),
    {
        let mut track = Track::new(self.title.as_str())?;
        let duration = match self.duration_ms {
            Some(m) => Some(duration_from_millis(m)?),
            None => None,
        };
        track.artists = self.artists;
        track.album = self.album;
        track.duration = duration;
        track.artwork_url = self.artwork_url;
        track.url = self.url;
        Ok(track)
    }
}

impl WireMessage {
    /// The media event this message reports.
    pub fn into_media_event(self) -> (r: Result<MediaEvent, Error>)
        ensures
            event_result_view(r) == event_of(self),
    {
        let source = MediaSource::browser(self.source.application.as_str())?;
        match self.kind {
            WireEventKind::TrackChanged { track } => {
                let track = track.into_track()?;
                Ok(MediaEvent::track_changed(source, track))
            },
            WireEventKind::PlaybackStateChanged { state } => Ok(
                MediaEvent::playback_state_changed(source, PlaybackState::from(state)),
            ),
            WireEventKind::PositionChanged { position_ms } => {
                let position = duration_from_millis(position_ms)?;
                Ok(MediaEvent::position_changed(source, position))
            },
            WireEventKind::SessionEnded => Ok(MediaEvent::session_ended(source)),
        }
    }
}

/// A wire track with a title that is not blank and a valid length, or none,
/// becomes a track that keeps every field as sent: the title, the artists in
/// order, the album, the artwork and the url, and the length as a span. A
/// blank title or an invalid length is refused.
pub proof fn lemma_wire_track_kept(t: WireTrack)
    ensures
        track_of(t) is Ok <==> (!is_blank(t.title@) && !(t.duration_ms matches Some(WireMillis::Invalid))),
        track_of(t) matches Ok(v) ==> {
            &&& v.title == t.title@
            &&& v.artists == texts(t.artists@)
            &&& v.album == opt_text(t.album)
            &&& v.artwork_url == opt_text(t.artwork_url)
            &&& v.url == opt_text(t.url)
            &&& t.duration_ms is None ==> v.duration is None
            &&& t.duration_ms matches Some(WireMillis::Valid(d)) ==> v.duration == Some(d@)
        },
{
}

/// A wire message becomes an event of a browser source that keeps the
/// application as sent, and of the change the message reports.
pub proof fn lemma_wire_message_kept(m: WireMessage)
    ensures
        event_of(m) matches Ok(e) ==> {
            &&& e.source.kind == MediaSourceKindView::Browser
            &&& e.source.application == m.source.application@
            &&& m.kind matches WireEventKind::PlaybackStateChanged { state } ==> e.kind
                == (MediaEventKindView::PlaybackStateChanged { state: state_of(state) })
            &&& m.kind is SessionEnded ==> e.kind == MediaEventKindView::SessionEnded
            &&& m.kind matches WireEventKind::PositionChanged { position_ms: WireMillis::Valid(d) } ==> e.kind
                == (MediaEventKindView::PositionChanged { position: d@ })
            &&& m.kind matches WireEventKind::TrackChanged { track } ==> e.kind
                == (MediaEventKindView::TrackChanged { track: track_of(track)->Ok_0 })
        },
        is_blank(m.source.application@) ==> event_of(m) is Err,
        state_of(WirePlaybackState::Playing) == PlaybackState::Playing,
        state_of(WirePlaybackState::Paused) == PlaybackState::Paused,
        state_of(WirePlaybackState::Stopped) == PlaybackState::Stopped,
{
}

} // verus!
