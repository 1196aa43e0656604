//! The Discord Rich Presence publisher: it folds media events into a
//! snapshot of the session and shows, updates or clears the activity.
use crate::activity::{activity_of, build_activity_at, millis_of_reading, unix_millis, ActivityPlanView};
use crate::discord::{self, cleared_client, closed_client, opening, sent, DiscordClient};
use crate::ipc::IpcCall;
use crate::duration::Duration;
use crate::error::{Error, ErrorView};
use crate::event::{MediaEvent, MediaEventKind, MediaEventKindView};
use crate::model::{opt_nanos, same_track, PlaybackState, Track, TrackView};
use vstd::prelude::*;

verus! {

/// What the publisher knows of the session: the latest track, playback
/// state and position.
struct PlaybackSnapshot {
    track: Option<Track>,
    playback_state: Option<PlaybackState>,
    position: Option<Duration>,
}

/// What a snapshot holds.
pub struct SnapshotView {
    pub track: Option<TrackView>,
    pub playback_state: Option<PlaybackState>,
    pub position: Option<nat>,
}

/// The view of an optional track.
pub open spec fn opt_track(t: Option<Track>) -> Option<TrackView> {
    match t {
        Some(t) => Some(t@),
        None => None,
    }
}

impl View for PlaybackSnapshot {
    type V = SnapshotView;

    closed spec fn view(&self) -> SnapshotView {
        SnapshotView {
            track: opt_track(self.track),
            playback_state: self.playback_state,
            position: opt_nanos(self.position),
        }
    }
}

/// The view of an optional snapshot.
spec fn opt_snapshot(s: Option<PlaybackSnapshot>) -> Option<SnapshotView> {
    match s {
        Some(s) => Some(s@),
        None => None,
    }
}

impl PlaybackSnapshot {
    fn empty() -> (s: PlaybackSnapshot)
        ensures
            s@ == empty_snapshot(),
    {
        PlaybackSnapshot { track: None, playback_state: None, position: None }
    }

    fn duplicate(&self) -> (s: PlaybackSnapshot)
        ensures
            s@ == self@,
    {
        let track = match &self.track {
            Some(t) => Some(t.clone()),
            None => None,
        };
        PlaybackSnapshot { track, playback_state: self.playback_state, position: self.position }
    }
}

/// The snapshot of a session of which nothing is known.
pub open spec fn empty_snapshot() -> SnapshotView {
    SnapshotView { track: None, playback_state: None, position: None }
}

/// The snapshot after an event: each change replaces its own field, and the
/// end of the session forgets everything.
pub open spec fn apply_event(s: SnapshotView, kind: MediaEventKindView) -> SnapshotView {
    match kind {
        MediaEventKindView::TrackChanged { track } => SnapshotView { track: Some(track), ..s },
        MediaEventKindView::PlaybackStateChanged { state } => SnapshotView {
            playback_state: Some(state),
            ..s
        },
        MediaEventKindView::PositionChanged { position } => SnapshotView {
            position: Some(position),
            ..s
        },
        MediaEventKindView::SessionEnded => empty_snapshot(),
    }
}

/// Whether the presence is to be cleared: playback stopped, or no track is
/// known.
pub open spec fn clears(s: SnapshotView) -> bool {
    s.playback_state == Some(PlaybackState::Stopped) || s.track is None
}

/// Whether the snapshot is to be shown again: nothing was shown yet, or the
/// track or the playback state differ from what was shown. The position
/// alone never causes a new render.
pub open spec fn renders(s: SnapshotView, last: Option<SnapshotView>) -> bool {
    match last {
        None => true,
        Some(l) => l.track != s.track || l.playback_state != s.playback_state,
    }
}

/// The activity that shows a snapshot with a known track, with the clock
/// reading `now`; an unknown playback state counts as playing.
pub open spec fn activity_for(s: SnapshotView, now: Option<i64>) -> ActivityPlanView {
    activity_of(
        s.track->0,
        match s.playback_state {
            Some(state) => state,
            None => PlaybackState::Playing,
        },
        s.position,
        now,
    )
}

/// Discord Rich Presence publisher.
pub struct DiscordPublisher {
    client: DiscordClient,
    snapshot: PlaybackSnapshot,
    last_rendered: Option<PlaybackSnapshot>,
}

/// An error of a failed IPC call, as the publisher reports it: a publisher
/// error whose text starts with that of an IPC error.
pub open spec fn ipc_failure(e: ErrorView) -> bool {
    e matches ErrorView::Publisher(text) && "discord IPC error: "@.is_prefix_of(text)
}

/// What a publisher that cleared the presence has become, from `old` with
/// snapshot `s` just before the clear: where nothing was shown, it forgets
/// the snapshot and makes no IPC call; else its client clears the activity,
/// and it forgets the snapshot and what was shown where that succeeded.
pub open spec fn cleared(
    old: DiscordPublisher,
    new: DiscordPublisher,
    s: SnapshotView,
    r: Result<(), Error>,
) -> bool {
    match old.last_rendered() {
        None => {
            &&& r is Ok
            &&& new.snapshot() == empty_snapshot()
            &&& new.last_rendered() is None
            &&& new.client() == old.client()
        },
        Some(_) => {
            &&& cleared_client(old.client(), new.client(), r is Ok)
            &&& r is Ok ==> {
                &&& new.snapshot() == empty_snapshot()
                &&& new.last_rendered() is None
            }
            &&& r matches Err(e) ==> {
                &&& new.snapshot() == s
                &&& new.last_rendered() == old.last_rendered()
                &&& ipc_failure(e@)
            }
        },
    }
}

/// What a publisher that showed snapshot `s` with the clock reading `now`
/// has become: its client sent the activity for `s` at `now`, and the
/// snapshot counts as shown where the send succeeded.
pub open spec fn rendered(
    old: DiscordPublisher,
    new: DiscordPublisher,
    s: SnapshotView,
    now: Option<i64>,
    r: Result<(), Error>,
) -> bool {
    &&& new.snapshot() == s
    &&& sent(old.client(), new.client(), activity_for(s, now), r is Ok)
    &&& r is Ok ==> new.last_rendered() == Some(s)
    &&& r matches Err(e) ==> {
        &&& new.last_rendered() == old.last_rendered()
        &&& ipc_failure(e@)
    }
}

/// What a publisher has become after publishing, with the clock reading
/// `now`, an event that made the snapshot `s`: cleared where `s` clears,
/// unchanged and silent where nothing is to be shown again, else shown.
pub open spec fn published(
    old: DiscordPublisher,
    new: DiscordPublisher,
    s: SnapshotView,
    now: Option<i64>,
    r: Result<(), Error>,
) -> bool {
    if clears(s) {
        cleared(old, new, s, r)
    } else if !renders(s, old.last_rendered()) {
        &&& r is Ok
        &&& new.snapshot() == s
        &&& new.last_rendered() == old.last_rendered()
        &&& new.client() == old.client()
    } else {
        rendered(old, new, s, now, r)
    }
}

/// The publisher error that carries the text of a Discord RPC error.
fn map_error(error: discord::Error) -> (e: Error)
    ensures
        e@ is Publisher,
        error is MissingClientId ==> e@ == ErrorView::Publisher("discord client id is missing"@),
        error is Ipc ==> ipc_failure(e@),
{
    Error::Publisher(error.message())
}

impl DiscordPublisher {
    /// The snapshot of the session.
    pub closed spec fn snapshot(&self) -> SnapshotView {
        self.snapshot@
    }

    /// The snapshot that the shown activity was built from, if any.
    pub closed spec fn last_rendered(&self) -> Option<SnapshotView> {
        opt_snapshot(self.last_rendered)
    }

    /// The Discord connection.
    pub closed spec fn client(&self) -> DiscordClient {
        self.client
    }

    /// A publisher connected to Discord with the given application id; the
    /// id must not be blank.
    pub fn connect(client_id: &str) -> (r: Result<DiscordPublisher, Error>)
        ensures
            crate::text::is_blank(client_id@) ==> (r matches Err(e) && e@ == ErrorView::Publisher(
                "discord client id is missing"@,
            )),
            !crate::text::is_blank(client_id@) ==> (r matches Err(e) ==> ipc_failure(e@)),
            r matches Ok(p) ==> {
                &&& p.snapshot() == empty_snapshot()
                &&& p.last_rendered() is None
                &&& p.client().connected()
                &&& p.client().last_activity() is None
                &&& p.client().client_id() == client_id@
                &&& p.client().calls() == opening(false, true)
            },
    {
        let mut client = match DiscordClient::new(client_id) {
            Ok(client) => client,
            Err(e) => return Err(map_error(e)),
        };
        match client.connect() {
            Ok(()) => {},
            Err(e) => return Err(map_error(e)),
        }
        Ok(DiscordPublisher { client, snapshot: PlaybackSnapshot::empty(), last_rendered: None })
    }

    /// A publisher over a client that may not be connected yet: the client
    /// connects on the first activity it sends.
    pub fn with_client(client: DiscordClient) -> (p: DiscordPublisher)
        ensures
            p.snapshot() == empty_snapshot(),
            p.last_rendered() is None,
            p.client() == client,
    {
        DiscordPublisher { client, snapshot: PlaybackSnapshot::empty(), last_rendered: None }
    }

    fn update_snapshot(&mut self, event: &MediaEvent)
        ensures
            final(self).snapshot() == apply_event(old(self).snapshot(), event.kind@),
            final(self).last_rendered() == old(self).last_rendered(),
            final(self).client() == old(self).client(),
    {
        match &event.kind {
            MediaEventKind::TrackChanged { track } => self.snapshot.track = Some(track.clone()),
            MediaEventKind::PlaybackStateChanged { state } => {
                self.snapshot.playback_state = Some(*state)
            },
            MediaEventKind::PositionChanged { position } => self.snapshot.position = Some(
                *position,
            ),
            MediaEventKind::SessionEnded => self.snapshot = PlaybackSnapshot::empty(),
        }
    }

    fn should_clear(&self) -> (b: bool)
        ensures
            b == clears(self.snapshot()),
    {
        match self.snapshot.playback_state {
            Some(PlaybackState::Stopped) => true,
            _ => self.snapshot.track.is_none(),
        }
    }

    fn should_render(&self) -> (b: bool)
        ensures
            b == renders(self.snapshot(), self.last_rendered()),
    {
        match &self.last_rendered {
            None => true,
            Some(last) => {
                let same_track = match (&last.track, &self.snapshot.track) {
                    (Some(a), Some(b)) => same_track(a, b),
                    (None, None) => true,
                    _ => false,
                };
                let same_state = match (last.playback_state, self.snapshot.playback_state) {
                    (Some(a), Some(b)) => a == b,
                    (None, None) => true,
                    _ => false,
                };
                !same_track || !same_state
            },
        }
    }

    fn publish_snapshot(&mut self, now: Option<i64>) -> (r: Result<(), Error>)
        ensures
            published(*old(self), *final(self), old(self).snapshot(), now, r),
    {
        if self.should_clear() {
            return self.clear();
        }
        if !self.should_render() {
            return Ok(());
        }
        let track = match &self.snapshot.track {
            Some(track) => track,
            None => return Ok(()),
        };
        let state = match self.snapshot.playback_state {
            Some(state) => state,
            None => PlaybackState::Playing,
        };
        let activity = build_activity_at(track, state, self.snapshot.position, now);
        assert(activity@ == activity_for(self.snapshot@, now));
        match self.client.set_activity(activity) {
            Ok(()) => {},
            Err(e) => return Err(map_error(e)),
        }
        self.last_rendered = Some(self.snapshot.duplicate());
        Ok(())
    }

    /// Applies one media event: folds it into the snapshot, then clears the
    /// presence at the end of the session or where the snapshot calls for
    /// it, shows it where the track or playback state changed, and sends
    /// nothing otherwise.
    pub fn publish(&mut self, event: &MediaEvent) -> (r: Result<(), Error>)
        ensures
            exists|elapsed: Option<(u64, u32)>|
                #![trigger millis_of_reading(elapsed)]
                (elapsed matches Some((_, nanos)) ==> nanos < 1_000_000_000) && published(
                    *old(self),
                    *final(self),
                    apply_event(old(self).snapshot(), event.kind@),
                    millis_of_reading(elapsed),
                    r,
                ),
    {
        let now = unix_millis();
        let r = self.publish_at(event, now);
        proof {
            let elapsed = choose|elapsed: Option<(u64, u32)>|
                #![trigger millis_of_reading(elapsed)]
                (elapsed matches Some((_, nanos)) ==> nanos < 1_000_000_000) && now
                    == millis_of_reading(elapsed);
            assert(published(*old(self), *self, apply_event(old(self).snapshot(), event.kind@), millis_of_reading(elapsed), r));
        }
        r
    }

    /// Applies one media event with the clock reading `now`: folds it into
    /// the snapshot, then clears the presence at the end of the session or
    /// where the snapshot calls for it, shows it where the track or playback
    /// state changed, and sends nothing otherwise.
    pub fn publish_at(&mut self, event: &MediaEvent, now: Option<i64>) -> (r: Result<(), Error>)
        ensures
            published(
                *old(self),
                *final(self),
                apply_event(old(self).snapshot(), event.kind@),
                now,
                r,
            ),
    {
        self.update_snapshot(event);
        match &event.kind {
            MediaEventKind::SessionEnded => self.clear(),
            _ => self.publish_snapshot(now),
        }
    }

    /// Clears any shown presence and forgets the snapshot.
    pub fn clear(&mut self) -> (r: Result<(), Error>)
        ensures
            cleared(*old(self), *final(self), old(self).snapshot(), r),
    {
        if self.last_rendered.is_none() {
            self.snapshot = PlaybackSnapshot::empty();
            return Ok(());
        }
        match self.client.clear_activity() {
            Ok(()) => {},
            Err(e) => return Err(map_error(e)),
        }
        self.snapshot = PlaybackSnapshot::empty();
        self.last_rendered = None;
        Ok(())
    }

    /// Closes the Discord connection.
    pub fn shutdown(&mut self) -> (r: Result<(), Error>)
        ensures
            closed_client(old(self).client(), final(self).client(), r is Ok),
            r matches Err(e) ==> ipc_failure(e@),
            final(self).snapshot() == old(self).snapshot(),
            final(self).last_rendered() == old(self).last_rendered(),
    {
        match self.client.shutdown() {
            Ok(()) => Ok(()),
            Err(e) => Err(map_error(e)),
        }
    }
}

/// After a successful `publish`, what Discord shows matches the session:
/// nothing where the snapshot calls for clearing, else an activity built
/// from the same track and playback state as the snapshot.
pub proof fn lemma_presence_follows_session(
    old: DiscordPublisher,
    new: DiscordPublisher,
    s: SnapshotView,
    now: Option<i64>,
    r: Result<(), Error>,
)
    requires
        published(old, new, s, now, r),
        r is Ok,
    ensures
        clears(s) ==> new.last_rendered() is None,
        !clears(s) ==> (new.last_rendered() matches Some(l) && l.track == s.track
            && l.playback_state == s.playback_state),
{
}

/// Where the snapshot calls for clearing and an activity is shown over an
/// open connection, publishing sends Discord exactly one clear, and no
/// activity.
pub proof fn lemma_clearing_sends_one_clear(
    old: DiscordPublisher,
    new: DiscordPublisher,
    s: SnapshotView,
    now: Option<i64>,
    r: Result<(), Error>,
)
    requires
        published(old, new, s, now, r),
        clears(s),
        old.last_rendered() is Some,
        old.client().connected(),
    ensures
        new.client().calls() == old.client().calls().push(IpcCall::ClearActivity { ok: r is Ok }),
{
}

/// Where a new snapshot is shown over an open connection, the first call
/// that publishing makes sends the activity built from that snapshot at the
/// clock reading, progress bar included.
pub proof fn lemma_render_sends_the_snapshot(
    old: DiscordPublisher,
    new: DiscordPublisher,
    s: SnapshotView,
    now: Option<i64>,
    r: Result<(), Error>,
)
    requires
        published(old, new, s, now, r),
        !clears(s),
        renders(s, old.last_rendered()),
        old.client().connected(),
    ensures
        new.client().calls().len() > old.client().calls().len(),
        new.client().calls()[old.client().calls().len() as int] == (IpcCall::SetActivity {
            plan: activity_for(s, now),
            ok: new.client().calls()[old.client().calls().len() as int]->SetActivity_ok,
        }),
{
    let p = activity_for(s, now);
    let (a, b, c, d) = choose|a: bool, b: bool, c: bool, d: bool|
        #![trigger crate::discord::send_calls(old.client().connected(), p, a, b, c, d)]
        new.client().calls() == old.client().calls() + crate::discord::send_calls(
            old.client().connected(),
            p,
            a,
            b,
            c,
            d,
        ) && (r is Ok) == crate::discord::send_succeeds(old.client().connected(), a, b, c, d);
    assert(new.client().calls()[old.client().calls().len() as int] == crate::discord::send_calls(
        true,
        p,
        a,
        b,
        c,
        d,
    )[0]);
}

/// The end of a session forgets everything known of it and clears the
/// presence.
pub proof fn lemma_session_end_clears(s: SnapshotView)
    ensures
        apply_event(s, MediaEventKindView::SessionEnded) == empty_snapshot(),
        clears(apply_event(s, MediaEventKindView::SessionEnded)),
{
}

/// Stopping playback clears the presence, whatever else is known.
pub proof fn lemma_stop_clears(s: SnapshotView)
    ensures
        clears(
            apply_event(s, MediaEventKindView::PlaybackStateChanged { state: PlaybackState::Stopped }),
        ),
{
}

/// Once a snapshot is shown, a position update, or a repeat of the shown
/// track or playback state, sends nothing to Discord.
pub proof fn lemma_unchanged_presence_is_quiet(s: SnapshotView, kind: MediaEventKindView)
    requires
        !clears(s),
        match kind {
            MediaEventKindView::TrackChanged { track } => s.track == Some(track),
            MediaEventKindView::PlaybackStateChanged { state } => s.playback_state == Some(state),
            MediaEventKindView::PositionChanged { .. } => true,
            MediaEventKindView::SessionEnded => false,
        },
    ensures
        !clears(apply_event(s, kind)),
        !renders(apply_event(s, kind), Some(s)),
{
}

/// A new track, or a new playback state other than stopped, is shown.
pub proof fn lemma_change_is_shown(s: SnapshotView, kind: MediaEventKindView)
    requires
        !clears(apply_event(s, kind)),
        match kind {
            MediaEventKindView::TrackChanged { track } => s.track != Some(track),
            MediaEventKindView::PlaybackStateChanged { state } => s.playback_state != Some(state),
            _ => false,
        },
    ensures
        renders(apply_event(s, kind), Some(s)),
{
}

/// The presence is cleared exactly when playback stopped or no track is
/// known; pausing, in particular, never clears it.
pub proof fn lemma_clears_exactly(s: SnapshotView)
    ensures
        clears(s) <==> (s.playback_state == Some(PlaybackState::Stopped) || s.track is None),
        s.track is Some && s.playback_state == Some(PlaybackState::Paused) ==> !clears(s),
        s.track is Some && s.playback_state == Some(PlaybackState::Playing) ==> !clears(s),
        s.track is Some && s.playback_state is None ==> !clears(s),
{
}

/// A snapshot is shown again exactly when nothing was shown, or its track
/// or playback state differ from what was shown.
pub proof fn lemma_renders_exactly(s: SnapshotView, last: Option<SnapshotView>)
    ensures
        renders(s, last) <==> (last is None || last->0.track != s.track || last->0.playback_state
            != s.playback_state),
{
}

/// Pausing a shown track keeps the presence and shows it again, as the
/// paused activity: same texts and images, no progress bar.
pub proof fn lemma_pause_is_shown_without_progress(s: SnapshotView, now: Option<i64>)
    requires
        s.track is Some,
        s.playback_state == Some(PlaybackState::Playing),
    ensures
        ({
            let paused = apply_event(s, MediaEventKindView::PlaybackStateChanged { state: PlaybackState::Paused });
            &&& !clears(paused)
            &&& renders(paused, Some(s))
            &&& paused.track == s.track
            &&& paused.position == s.position
            &&& activity_for(paused, now).timestamps is None
            &&& activity_for(paused, now).details == s.track->0.title
            &&& activity_for(paused, now).state == activity_for(s, now).state
            &&& activity_for(paused, now).large_text == activity_for(s, now).large_text
            &&& activity_for(paused, now).large_image == activity_for(s, now).large_image
        }),
{
}

/// Each change replaces its own field of the snapshot and keeps the
/// others; the end of a session forgets them all.
pub proof fn lemma_event_changes_one_field(s: SnapshotView, kind: MediaEventKindView)
    ensures
        kind matches MediaEventKindView::TrackChanged { track } ==> apply_event(s, kind).track == Some(track)
            && apply_event(s, kind).playback_state == s.playback_state && apply_event(s, kind).position == s.position,
        kind matches MediaEventKindView::PlaybackStateChanged { state } ==> apply_event(s, kind).track == s.track
            && apply_event(s, kind).playback_state == Some(state) && apply_event(s, kind).position == s.position,
        kind matches MediaEventKindView::PositionChanged { position } ==> apply_event(s, kind).track == s.track
            && apply_event(s, kind).playback_state == s.playback_state && apply_event(s, kind).position == Some(position),
        kind is SessionEnded ==> apply_event(s, kind).track is None && apply_event(s, kind).playback_state is None
            && apply_event(s, kind).position is None,
{
}

} // verus!
