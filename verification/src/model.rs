//! The media model: where a session comes from, its playback state and the
//! metadata of the current item.
use crate::duration::Duration;
use crate::error::Error;
use crate::text::{is_blank, is_blank_str};
use vstd::prelude::*;
use vstd::string::*;

verus! {

/// Identifies the kind of integration that observed a media session.
#[derive(Debug, PartialEq, Eq, Hash)]
pub enum MediaSourceKind {
    Browser,
    System,
    /// A future or third-party provider kind.
    Custom(String),
}

/// What a [`MediaSourceKind`] names.
pub enum MediaSourceKindView {
    Browser,
    System,
    Custom(Seq<char>),
}

impl View for MediaSourceKind {
    type V = MediaSourceKindView;

    open spec fn view(&self) -> MediaSourceKindView {
        match self {
            MediaSourceKind::Browser => MediaSourceKindView::Browser,
            MediaSourceKind::System => MediaSourceKindView::System,
            MediaSourceKind::Custom(name) => MediaSourceKindView::Custom(name@),
        }
    }
}

/// Identifies the application or service associated with a media session.
#[derive(Debug, PartialEq, Eq, Hash)]
pub struct MediaSource {
    pub kind: MediaSourceKind,
    pub application: String,
}

impl Clone for MediaSourceKind {
    fn clone(&self) -> (r: MediaSourceKind)
        ensures
            r@ == self@,
    {
        match self {
            MediaSourceKind::Browser => MediaSourceKind::Browser,
            MediaSourceKind::System => MediaSourceKind::System,
            MediaSourceKind::Custom(name) => MediaSourceKind::Custom(name.clone()),
        }
    }
}

impl Clone for MediaSource {
    fn clone(&self) -> (r: MediaSource)
        ensures
            r@ == self@,
    {
        MediaSource { kind: self.kind.clone(), application: self.application.clone() }
    }
}

/// What a [`MediaSource`] names.
pub struct MediaSourceView {
    pub kind: MediaSourceKindView,
    pub application: Seq<char>,
}

impl View for MediaSource {
    type V = MediaSourceView;

    open spec fn view(&self) -> MediaSourceView {
        MediaSourceView { kind: self.kind@, application: self.application@ }
    }
}

/// The message of the error for a blank application name.
pub open spec fn empty_application_message() -> Seq<char> {
    "media source application cannot be empty"@
}

/// The message of the error for a blank track title.
pub open spec fn empty_title_message() -> Seq<char> {
    "track title cannot be empty"@
}

/// What `MediaSource::new(kind, application)` gives: the source, or the
/// error for a blank application name.
pub open spec fn new_source_view(kind: MediaSourceKindView, application: Seq<char>) -> Result<
    MediaSourceView,
    crate::error::ErrorView,
> {
    if is_blank(application) {
        Err(crate::error::ErrorView::InvalidMediaData(empty_application_message()))
    } else {
        Ok(MediaSourceView { kind, application })
    }
}

/// The view of a source result.
pub open spec fn source_result_view(r: Result<MediaSource, Error>) -> Result<
    MediaSourceView,
    crate::error::ErrorView,
> {
    match r {
        Ok(s) => Ok(s@),
        Err(e) => Err(e@),
    }
}

impl MediaSource {
    /// A source of the given kind; the application name must not be blank.
    pub fn new(kind: MediaSourceKind, application: &str) -> (r: Result<MediaSource, Error>)
        ensures
            source_result_view(r) == new_source_view(kind@, application@),
            r matches Ok(s) ==> s.kind == kind,
    {
        if is_blank_str(application) {
            return Err(Error::InvalidMediaData(String::from_str("media source application cannot be empty")));
        }
        Ok(MediaSource { kind, application: String::from_str(application) })
    }

    /// A source observed by the browser integration.
    pub fn browser(application: &str) -> (r: Result<MediaSource, Error>)
        ensures
            source_result_view(r) == new_source_view(MediaSourceKindView::Browser, application@),
    {
        MediaSource::new(MediaSourceKind::Browser, application)
    }

    /// A source observed through the operating system.
    pub fn system(application: &str) -> (r: Result<MediaSource, Error>)
        ensures
            source_result_view(r) == new_source_view(MediaSourceKindView::System, application@),
    {
        MediaSource::new(MediaSourceKind::System, application)
    }
}

/// The current state of a media session.
#[derive(Debug, Clone, Copy, PartialEq, Eq, Hash, Structural)]
pub enum PlaybackState {
    Playing,
    Paused,
    Stopped,
}

/// Metadata that publishers can expose for the current item.
#[derive(Debug, PartialEq, Eq)]
pub struct Track {
    pub title: String,
    pub artists: Vec<String>,
    pub album: Option<String>,
    pub duration: Option<Duration>,
    pub artwork_url: Option<String>,
    pub url: Option<String>,
}

/// What a [`Track`] holds.
pub struct TrackView {
    pub title: Seq<char>,
    pub artists: Seq<Seq<char>>,
    pub album: Option<Seq<char>>,
    pub duration: Option<nat>,
    pub artwork_url: Option<Seq<char>>,
    pub url: Option<Seq<char>>,
}

/// The view of an optional text.
pub open spec fn opt_text(o: Option<String>) -> Option<Seq<char>> {
    match o {
        Some(s) => Some(s@),
        None => None,
    }
}

/// The view of an optional span, in nanoseconds.
pub open spec fn opt_nanos(o: Option<Duration>) -> Option<nat> {
    match o {
        Some(d) => Some(d@),
        None => None,
    }
}

/// The view of a list of texts.
pub open spec fn texts(v: Seq<String>) -> Seq<Seq<char>> {
    v.map_values(|s: String| s@)
}

impl View for Track {
    type V = TrackView;

    open spec fn view(&self) -> TrackView {
        TrackView {
            title: self.title@,
            artists: texts(self.artists@),
            album: opt_text(self.album),
            duration: opt_nanos(self.duration),
            artwork_url: opt_text(self.artwork_url),
            url: opt_text(self.url),
        }
    }
}

impl Clone for Track {
    fn clone(&self) -> (r: Track)
        ensures
            r@ == self@,
    {
        let r = Track {
            title: self.title.clone(),
            artists: self.artists.clone(),
            album: self.album.clone(),
            duration: self.duration,
            artwork_url: self.artwork_url.clone(),
            url: self.url.clone(),
        };
        assert(r.artists@ =~= self.artists@);
        r
    }
}

/// A track with the given title and no other metadata.
pub open spec fn bare_track(title: Seq<char>) -> TrackView {
    TrackView {
        title,
        artists: Seq::empty(),
        album: None,
        duration: None,
        artwork_url: None,
        url: None,
    }
}

/// What `Track::new(title)` gives: the bare track, or the error for a blank
/// title.
pub open spec fn new_track_view(title: Seq<char>) -> Result<TrackView, crate::error::ErrorView> {
    if is_blank(title) {
        Err(crate::error::ErrorView::InvalidMediaData(empty_title_message()))
    } else {
        Ok(bare_track(title))
    }
}

/// The view of a track result.
pub open spec fn track_result_view(r: Result<Track, Error>) -> Result<TrackView, crate::error::ErrorView> {
    match r {
        Ok(t) => Ok(t@),
        Err(e) => Err(e@),
    }
}

impl Track {
    /// A track with the given title and every other field absent; the title
    /// must not be blank.
    pub fn new(title: &str) -> (r: Result<Track, Error>)
        ensures
            track_result_view(r) == new_track_view(title@),
    {
        if is_blank_str(title) {
            return Err(Error::InvalidMediaData(String::from_str("track title cannot be empty")));
        }
        let t = Track {
            title: String::from_str(title),
            artists: Vec::new(),
            album: None,
            duration: None,
            artwork_url: None,
            url: None,
        };
        assert(t@.artists =~= Seq::<Seq<char>>::empty());
        Ok(t)
    }
}

/// Whether two optional texts are equal.
fn opt_text_eq(a: &Option<String>, b: &Option<String>) -> (r: bool)
    ensures
        r == (opt_text(*a) == opt_text(*b)),
{
    match (a, b) {
        (Some(x), Some(y)) => *x == *y,
        (None, None) => true,
        _ => false,
    }
}

/// Whether two lists of texts are equal.
fn texts_eq(a: &Vec<String>, b: &Vec<String>) -> (r: bool)
    ensures
        r == (texts(a@) == texts(b@)),
{
    if a.len() != b.len() {
        assert(texts(a@).len() != texts(b@).len());
        return false;
    }
    let mut i: usize = 0;
    while i < a.len()
        invariant
            i <= a.len() == b.len(),
            forall|j: int| 0 <= j < i ==> (#[trigger] a@[j])@ == b@[j]@,
        decreases a.len() - i,
    {
        if a[i] != b[i] {
            assert(texts(a@)[i as int] != texts(b@)[i as int]);
            return false;
        }
        i = i + 1;
    }
    assert(texts(a@) =~= texts(b@));
    true
}

/// Whether two optional spans are equally long, or both absent.
fn opt_duration_eq(a: &Option<Duration>, b: &Option<Duration>) -> (r: bool)
    ensures
        r == (opt_nanos(*a) == opt_nanos(*b)),
{
    match (a, b) {
        (Some(x), Some(y)) => x.same_as(y),
        (None, None) => true,
        _ => false,
    }
}

/// Whether two tracks hold the same metadata.
pub fn same_track(a: &Track, b: &Track) -> (r: bool)
    ensures
        r == (a@ == b@),
{
    a.title == b.title && texts_eq(&a.artists, &b.artists) && opt_text_eq(&a.album, &b.album)
        && opt_duration_eq(&a.duration, &b.duration) && opt_text_eq(
        &a.artwork_url,
        &b.artwork_url,
    ) && opt_text_eq(&a.url, &b.url)
}

} // verus!
