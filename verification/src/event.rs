//! The events that a media provider emits.
use crate::duration::Duration;
use crate::model::{MediaSource, MediaSourceView, PlaybackState, Track, TrackView};
use vstd::prelude::*;

verus! {

/// An event emitted by the single media provider selected by the user.
#[derive(Debug, Clone, PartialEq, Eq)]
pub struct MediaEvent {
    /// The application or service to which this event belongs.
    pub source: MediaSource,
    /// The change observed in the media session.
    pub kind: MediaEventKind,
}

/// The media-session changes that a provider can report.
#[derive(Debug, Clone, PartialEq, Eq)]
pub enum MediaEventKind {
    TrackChanged { track: Track },
    PlaybackStateChanged { state: PlaybackState },
    PositionChanged { position: Duration },
    SessionEnded,
}

/// What a [`MediaEventKind`] reports.
pub enum MediaEventKindView {
    TrackChanged { track: TrackView },
    PlaybackStateChanged { state: PlaybackState },
    PositionChanged { position: nat },
    SessionEnded,
}

impl View for MediaEventKind {
    type V = MediaEventKindView;

    open spec fn view(&self) -> MediaEventKindView {
        match self {
            MediaEventKind::TrackChanged { track } => MediaEventKindView::TrackChanged {
                track: track@,
            },
            MediaEventKind::PlaybackStateChanged { state } => MediaEventKindView::PlaybackStateChanged {
                state: *state,
            },
            MediaEventKind::PositionChanged { position } => MediaEventKindView::PositionChanged {
                position: position@,
            },
            MediaEventKind::SessionEnded => MediaEventKindView::SessionEnded,
        }
    }
}

/// What a [`MediaEvent`] reports.
pub struct MediaEventView {
    pub source: MediaSourceView,
    pub kind: MediaEventKindView,
}

impl View for MediaEvent {
    type V = MediaEventView;

    open spec fn view(&self) -> MediaEventView {
        MediaEventView { source: self.source@, kind: self.kind@ }
    }
}

impl MediaEvent {
    /// A new item started playing.
    pub fn track_changed(source: MediaSource, track: Track) -> (e: MediaEvent)
        ensures
            e == (MediaEvent { source, kind: MediaEventKind::TrackChanged { track } }),
    {
        MediaEvent { source, kind: MediaEventKind::TrackChanged { track } }
    }

    /// The session was played, paused or stopped.
    pub fn playback_state_changed(source: MediaSource, state: PlaybackState) -> (e: MediaEvent)
        ensures
            e == (MediaEvent { source, kind: MediaEventKind::PlaybackStateChanged { state } }),
    {
        MediaEvent { source, kind: MediaEventKind::PlaybackStateChanged { state } }
    }

    /// The playback position moved.
    pub fn position_changed(source: MediaSource, position: Duration) -> (e: MediaEvent)
        ensures
            e == (MediaEvent { source, kind: MediaEventKind::PositionChanged { position } }),
    {
        MediaEvent { source, kind: MediaEventKind::PositionChanged { position } }
    }

    /// The session went away.
    pub fn session_ended(source: MediaSource) -> (e: MediaEvent)
        ensures
            e == (MediaEvent { source, kind: MediaEventKind::SessionEnded }),
    {
        MediaEvent { source, kind: MediaEventKind::SessionEnded }
    }
}

/// The view of an event result.
pub open spec fn event_result_view(r: Result<MediaEvent, crate::error::Error>) -> Result<
    MediaEventView,
    crate::error::ErrorView,
> {
    match r {
        Ok(e) => Ok(e@),
        Err(e) => Err(e@),
    }
}

} // verus!
