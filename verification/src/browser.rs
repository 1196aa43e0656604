//! The browser provider's session: it turns the extension's messages into
//! media events and ends the session when the extension falls silent.
use crate::duration::Duration;
use crate::error::{Error, ErrorView};
use crate::event::{event_result_view, MediaEvent, MediaEventKind, MediaEventKindView, MediaEventView};
use crate::model::{MediaSource, MediaSourceView};
use crate::protocol::{event_of, WireMessage};
use vstd::prelude::*;
use vstd::string::*;

verus! {

/// How long the extension may stay silent before the session counts as
/// ended: thirty seconds.
pub fn idle_timeout() -> (d: Duration)
    ensures
        d@ == 30_000_000_000,
{
    Duration::from_secs(30)
}

/// What the provider remembers between events: the source of the last
/// event and whether that event ended the session.
pub struct BrowserSession {
    last_source: Option<MediaSource>,
    ended: bool,
}

/// The view of an optional source.
pub open spec fn opt_source(s: Option<MediaSource>) -> Option<MediaSourceView> {
    match s {
        Some(s) => Some(s@),
        None => None,
    }
}

/// The message of the error for a reader that stopped.
pub open spec fn reader_stopped_message() -> Seq<char> {
    "the native messaging reader stopped unexpectedly"@
}

impl BrowserSession {
    /// The source of the last event, if any.
    pub closed spec fn last_source(&self) -> Option<MediaSourceView> {
        opt_source(self.last_source)
    }

    /// Whether the last event ended the session.
    pub closed spec fn ended(&self) -> bool {
        self.ended
    }

    /// Whether the idle timer runs: an event arrived and it did not end the
    /// session.
    pub open spec fn armed(&self) -> bool {
        self.last_source() is Some && !self.ended()
    }

    /// A session that has seen no event.
    pub fn new() -> (s: BrowserSession)
        ensures
            s.last_source() is None,
            !s.ended(),
    {
        BrowserSession { last_source: None, ended: false }
    }

    /// Whether the idle timer runs.
    pub fn idle_timeout_armed(&self) -> (b: bool)
        ensures
            b == self.armed(),
    {
        self.last_source.is_some() && !self.ended
    }

    /// Takes what the reader delivered: nothing where it stopped, else a
    /// message or the error that reading gave. A message that makes an event
    /// records its source, and whether it ended the session.
    pub fn on_message(&mut self, message: Option<Result<WireMessage, Error>>) -> (r: Result<
        MediaEvent,
        Error,
    >)
        ensures
            message is None ==> (r matches Err(e) && e@ == ErrorView::Provider(reader_stopped_message())),
            message matches Some(Err(e)) ==> r == Err::<MediaEvent, Error>(e),
            message matches Some(Ok(m)) ==> event_result_view(r) == event_of(m),
            r is Err ==> *final(self) == *old(self),
            r matches Ok(e) ==> {
                &&& final(self).last_source() == Some(e.source@)
                &&& final(self).ended() == (e.kind is SessionEnded)
                &&& final(self).armed() == !(e.kind is SessionEnded)
            },
    {
        let message = match message {
            Some(message) => message,
            None => return Err(
                Error::Provider(String::from_str("the native messaging reader stopped unexpectedly")),
            ),
        };
        let message = match message {
            Ok(message) => message,
            Err(e) => return Err(e),
        };
        let event = message.into_media_event()?;
        self.last_source = Some(event.source.clone());
        self.ended = match event.kind {
            MediaEventKind::SessionEnded => true,
            _ => false,
        };
        Ok(event)
    }

    /// The idle timer expired: the session of the last event ends, and the
    /// timer stops until the next event.
    pub fn on_idle_timeout(&mut self) -> (e: MediaEvent)
        requires
            old(self).armed(),
        ensures
            e@ == (MediaEventView { source: old(self).last_source()->0, kind: MediaEventKindView::SessionEnded }),
            final(self).last_source() == old(self).last_source(),
            final(self).ended(),
            !final(self).armed(),
    {
        self.ended = true;
        match &self.last_source {
            Some(source) => MediaEvent::session_ended(source.clone()),
            None => vstd::pervasive::unreached(),
        }
    }
}

} // verus!
