//! What the Discord Rich Presence shows for a track: the texts, the images
//! and, while playing, the progress bar.
use crate::duration::Duration;
use crate::model::{PlaybackState, Track, TrackView};
use vstd::prelude::*;
use vstd::string::*;

verus! {

/// The kind of activity that Discord shows.
#[derive(Debug, Clone, Copy, PartialEq, Eq, Structural)]
pub enum ActivityKind {
    Playing,
    Listening,
    Watching,
    Competing,
}

/// The start and end of the item, in Unix milliseconds, which Discord draws
/// as a progress bar.
#[derive(Debug, Clone, Copy, PartialEq, Eq, Structural)]
pub struct Timestamps {
    pub start: i64,
    pub end: i64,
}

/// An activity ready to be sent to Discord.
#[derive(Debug, PartialEq, Eq)]
pub struct ActivityPlan {
    pub name: String,
    pub details: String,
    pub state: String,
    pub large_image: String,
    pub large_text: String,
    pub small_image: String,
    pub small_text: String,
    pub kind: ActivityKind,
    pub timestamps: Option<Timestamps>,
}

/// What an [`ActivityPlan`] shows.
pub struct ActivityPlanView {
    pub name: Seq<char>,
    pub details: Seq<char>,
    pub state: Seq<char>,
    pub large_image: Seq<char>,
    pub large_text: Seq<char>,
    pub small_image: Seq<char>,
    pub small_text: Seq<char>,
    pub kind: ActivityKind,
    pub timestamps: Option<Timestamps>,
}

impl View for ActivityPlan {
    type V = ActivityPlanView;

    open spec fn view(&self) -> ActivityPlanView {
        ActivityPlanView {
            name: self.name@,
            details: self.details@,
            state: self.state@,
            large_image: self.large_image@,
            large_text: self.large_text@,
            small_image: self.small_image@,
            small_text: self.small_text@,
            kind: self.kind,
            timestamps: self.timestamps,
        }
    }
}

impl Clone for ActivityPlan {
    fn clone(&self) -> (r: ActivityPlan)
        ensures
            r@ == self@,
    {
        ActivityPlan {
            name: self.name.clone(),
            details: self.details.clone(),
            state: self.state.clone(),
            large_image: self.large_image.clone(),
            large_text: self.large_text.clone(),
            small_image: self.small_image.clone(),
            small_text: self.small_text.clone(),
            kind: self.kind,
            timestamps: self.timestamps,
        }
    }
}

/// The line under the title: the first artist, or a stand-in.
pub open spec fn state_text_of(t: TrackView) -> Seq<char> {
    if t.artists.len() > 0 {
        "by "@ + t.artists[0]
    } else {
        "by Unknown Artist"@
    }
}

/// The hover text of the large image: the album, else the first artist,
/// else a stand-in.
pub open spec fn large_text_of(t: TrackView) -> Seq<char> {
    match t.album {
        Some(album) => album,
        None => if t.artists.len() > 0 {
            t.artists[0]
        } else {
            "Unknown Artist"@
        },
    }
}

/// The large image: the artwork, else the fallback asset.
pub open spec fn large_image_of(t: TrackView) -> Seq<char> {
    match t.artwork_url {
        Some(url) => url,
        None => "leon"@,
    }
}

/// A span in nanoseconds as whole milliseconds, where that fits an `i64`.
pub open spec fn millis_of(nanos: nat) -> Option<i64> {
    if nanos / 1_000_000 <= i64::MAX {
        Some((nanos / 1_000_000) as i64)
    } else {
        None
    }
}

/// The progress bar of an item of length `duration` at `position`, seen at
/// `now`: it started `position` before `now` and ends `duration` after its
/// start; absent where the clock is unknown or a value leaves `i64`.
pub open spec fn timestamps_of(now: Option<i64>, duration: nat, position: nat) -> Option<Timestamps> {
    match (now, millis_of(duration), millis_of(position)) {
        (Some(now), Some(length), Some(elapsed)) => {
            let start = now - elapsed;
            if start < i64::MIN || start + length > i64::MAX {
                None
            } else {
                Some(Timestamps { start: start as i64, end: (start + length) as i64 })
            }
        },
        _ => None,
    }
}

/// Whether the activity carries a progress bar: only while playing, and only
/// with both a length and a position known.
pub open spec fn shows_progress(t: TrackView, state: PlaybackState, position: Option<nat>) -> bool {
    state == PlaybackState::Playing && t.duration is Some && position is Some
}

/// The activity shown for a track in a state at a position, with the clock
/// reading `now`.
pub open spec fn activity_of(
    t: TrackView,
    state: PlaybackState,
    position: Option<nat>,
    now: Option<i64>,
) -> ActivityPlanView {
    ActivityPlanView {
        name: "Sonata"@,
        details: t.title,
        state: state_text_of(t),
        large_image: large_image_of(t),
        large_text: large_text_of(t),
        small_image: "sonata"@,
        small_text: "Sonata"@,
        kind: ActivityKind::Listening,
        timestamps: if shows_progress(t, state, position) {
            timestamps_of(now, t.duration->0, position->0)
        } else {
            None
        },
    }
}

/// The line under the title: "by" and the first artist, or a stand-in.
pub fn state_text(track: &Track) -> (s: String)
    ensures
        s@ == state_text_of(track@),
{
    if track.artists.len() > 0 {
        String::from_str("by ").concat(track.artists[0].as_str())
    } else {
        String::from_str("by Unknown Artist")
    }
}

/// The hover text of the large image.
pub fn large_text(track: &Track) -> (s: String)
    ensures
        s@ == large_text_of(track@),
{
    match &track.album {
        Some(album) => album.clone(),
        None => if track.artists.len() > 0 {
            track.artists[0].clone()
        } else {
            String::from_str("Unknown Artist")
        },
    }
}

/// A span as whole milliseconds, where that fits an `i64`.
pub fn duration_to_millis(duration: Duration) -> (m: Option<i64>)
    ensures
        m == millis_of(duration@),
{
    let millis = duration.as_millis();
    if millis <= 9_223_372_036_854_775_807u128 {
        Some(millis as i64)
    } else {
        None
    }
}

/// The progress bar of an item of length `duration` at `position`, with the
/// clock reading `now`.
pub fn timestamps_at(now: Option<i64>, duration: Duration, position: Duration) -> (t: Option<
    Timestamps,
>)
    ensures
        t == timestamps_of(now, duration@, position@),
{
    let now = match now {
        Some(now) => now,
        None => return None,
    };
    let length = match duration_to_millis(duration) {
        Some(length) => length,
        None => return None,
    };
    let elapsed = match duration_to_millis(position) {
        Some(elapsed) => elapsed,
        None => return None,
    };
    let start = match now.checked_sub(elapsed) {
        Some(start) => start,
        None => return None,
    };
    let end = match start.checked_add(length) {
        Some(end) => end,
        None => return None,
    };
    Some(Timestamps { start, end })
}

#[verifier::external_type_specification]
#[verifier::external_body]
pub struct ExSystemTime(std::time::SystemTime);

/// `SystemTime::now`: the current time of the system clock. Nothing is
/// claimed of the value, which depends on the moment of the call.
#[verifier::external_body]
fn system_time_now() -> std::time::SystemTime {
    std::time::SystemTime::now()
}

/// `SystemTime::duration_since(UNIX_EPOCH)`, as whole seconds and the
/// nanoseconds beyond them; `None` where `t` lies before the epoch. The
/// nanoseconds are below one billion, as `Duration::subsec_nanos` documents.
#[verifier::external_body]
fn since_unix_epoch(t: std::time::SystemTime) -> (r: Option<(u64, u32)>)
    ensures
        r matches Some((_, nanos)) ==> nanos < 1_000_000_000,
{
    match t.duration_since(std::time::UNIX_EPOCH) {
        Ok(d) => Some((d.as_secs(), d.subsec_nanos())),
        Err(_) => None,
    }
}

/// The Unix time in milliseconds of a clock reading taken as the time since
/// the epoch, in whole seconds and the nanoseconds beyond them: absent where
/// the clock lies before the epoch or the value leaves `i64`.
pub open spec fn millis_of_reading(elapsed: Option<(u64, u32)>) -> Option<i64> {
    match elapsed {
        Some((secs, nanos)) => millis_of((secs * 1_000_000_000 + nanos) as nat),
        None => None,
    }
}

/// The Unix time in milliseconds of a clock reading, given as the time since
/// the epoch in whole seconds and the nanoseconds beyond them, or `None`
/// where the clock lies before the epoch.
pub fn millis_since_epoch(elapsed: Option<(u64, u32)>) -> (m: Option<i64>)
    requires
        elapsed matches Some((_, nanos)) ==> nanos < 1_000_000_000,
    ensures
        m == millis_of_reading(elapsed),
{
    let (secs, nanos) = match elapsed {
        Some(elapsed) => elapsed,
        None => return None,
    };
    duration_to_millis(Duration::new(secs, nanos))
}

/// The current Unix time in milliseconds, if the clock is past the epoch
/// and the value fits an `i64`: what `millis_since_epoch` gives for the
/// clock reading taken now.
pub fn unix_millis() -> (m: Option<i64>)
    ensures
        exists|elapsed: Option<(u64, u32)>|
            #![trigger millis_of_reading(elapsed)]
            (elapsed matches Some((_, nanos)) ==> nanos < 1_000_000_000) && m == millis_of_reading(
                elapsed,
            ),
        m matches Some(m) ==> m >= 0,
{
    let elapsed = since_unix_epoch(system_time_now());
    millis_since_epoch(elapsed)
}

/// The progress bar of an item of length `duration` at `position`, seen
/// now.
pub fn timestamps(duration: Duration, position: Duration) -> (t: Option<Timestamps>)
    ensures
        exists|now: Option<i64>|
            (now matches Some(n) ==> n >= 0) && t == timestamps_of(now, duration@, position@),
        exists|elapsed: Option<(u64, u32)>|
            #![trigger millis_of_reading(elapsed)]
            (elapsed matches Some((_, nanos)) ==> nanos < 1_000_000_000) && t == timestamps_of(
                millis_of_reading(elapsed),
                duration@,
                position@,
            ),
{
    let now = unix_millis();
    let t = timestamps_at(now, duration, position);
    proof {
        let e = choose|elapsed: Option<(u64, u32)>|
            #![trigger millis_of_reading(elapsed)]
            (elapsed matches Some((_, nanos)) ==> nanos < 1_000_000_000) && now == millis_of_reading(elapsed);
        assert(t == timestamps_of(millis_of_reading(e), duration@, position@));
    }
    t
}

/// The activity shown for a track in a state at a position, with the clock
/// reading `now`.
pub fn build_activity_at(
    track: &Track,
    playback_state: PlaybackState,
    position: Option<Duration>,
    now: Option<i64>,
) -> (a: ActivityPlan)
    ensures
        a@ == activity_of(track@, playback_state, crate::model::opt_nanos(position), now),
{
    let large_image = match &track.artwork_url {
        Some(url) => url.clone(),
        None => String::from_str("leon"),
    };
    let timestamps = match (playback_state, track.duration, position) {
        (PlaybackState::Playing, Some(duration), Some(position)) => timestamps_at(
            now,
            duration,
            position,
        ),
        _ => None,
    };
    ActivityPlan {
        name: String::from_str("Sonata"),
        details: track.title.clone(),
        state: state_text(track),
        large_image,
        large_text: large_text(track),
        small_image: String::from_str("sonata"),
        small_text: String::from_str("Sonata"),
        kind: ActivityKind::Listening,
        timestamps,
    }
}

/// The activity shown for a track in a state at a position; the clock is
/// read only where a progress bar is shown.
pub fn build_activity(
    track: &Track,
    playback_state: PlaybackState,
    position: Option<Duration>,
) -> (a: Option<ActivityPlan>)
    ensures
        a matches Some(a) && exists|now: Option<i64>|
            (now matches Some(n) ==> n >= 0) &&
            a@ == activity_of(track@, playback_state, crate::model::opt_nanos(position), now),
        a matches Some(a) && exists|elapsed: Option<(u64, u32)>|
            #![trigger millis_of_reading(elapsed)]
            (elapsed matches Some((_, nanos)) ==> nanos < 1_000_000_000) && a@ == activity_of(
                track@,
                playback_state,
                crate::model::opt_nanos(position),
                millis_of_reading(elapsed),
            ),
{
    let now = match (playback_state, track.duration, position) {
        (PlaybackState::Playing, Some(_), Some(_)) => unix_millis(),
        _ => {
            assert(millis_of_reading(None) is None);
            None
        },
    };
    assert(exists|elapsed: Option<(u64, u32)>|
        #![trigger millis_of_reading(elapsed)]
        (elapsed matches Some((_, nanos)) ==> nanos < 1_000_000_000) && now == millis_of_reading(elapsed));
    let a = build_activity_at(track, playback_state, position, now);
    proof {
        let e = choose|elapsed: Option<(u64, u32)>|
            #![trigger millis_of_reading(elapsed)]
            (elapsed matches Some((_, nanos)) ==> nanos < 1_000_000_000) && now == millis_of_reading(elapsed);
        assert(a@ == activity_of(track@, playback_state, crate::model::opt_nanos(position), millis_of_reading(e)));
    }
    Some(a)
}

/// What an activity shows, field by field: the fixed name, badge and kind;
/// the title; "by" and the first artist, or a stand-in; the album, else the
/// first artist, else a stand-in, as hover text; the artwork, else the
/// fallback image.
pub proof fn lemma_activity_texts(t: TrackView, state: PlaybackState, position: Option<nat>, now: Option<i64>)
    ensures
        ({
            let a = activity_of(t, state, position, now);
            &&& a.name == "Sonata"@
            &&& a.small_image == "sonata"@
            &&& a.small_text == "Sonata"@
            &&& a.kind == ActivityKind::Listening
            &&& a.details == t.title
            &&& t.artists.len() > 0 ==> a.state == "by "@ + t.artists[0]
            &&& t.artists.len() == 0 ==> a.state == "by Unknown Artist"@
            &&& t.album matches Some(album) ==> a.large_text == album
            &&& t.album is None && t.artists.len() > 0 ==> a.large_text == t.artists[0]
            &&& t.album is None && t.artists.len() == 0 ==> a.large_text == "Unknown Artist"@
            &&& t.artwork_url matches Some(url) ==> a.large_image == url
            &&& t.artwork_url is None ==> a.large_image == "leon"@
        }),
{
}

/// The progress bar: only while playing with a known length and position;
/// it starts `position` (in milliseconds) before the clock reading `now`
/// and lasts the length of the track, wherever those fit an `i64`.
pub proof fn lemma_activity_progress(
    t: TrackView,
    state: PlaybackState,
    position: Option<nat>,
    now: Option<i64>,
)
    ensures
        ({
            let a = activity_of(t, state, position, now);
            &&& (state != PlaybackState::Playing || t.duration is None || position is None || now is None)
                ==> a.timestamps is None
            &&& a.timestamps matches Some(ts) ==> {
                &&& state == PlaybackState::Playing
                &&& ts.start == now->0 - position->0 / 1_000_000
                &&& ts.end == ts.start + t.duration->0 / 1_000_000
            }
            &&& (state == PlaybackState::Playing && t.duration is Some && position is Some
                && now is Some && t.duration->0 / 1_000_000 <= i64::MAX && position->0 / 1_000_000 <= i64::MAX
                && now->0 - position->0 / 1_000_000 >= i64::MIN && now->0 - position->0 / 1_000_000
                + t.duration->0 / 1_000_000 <= i64::MAX) ==> a.timestamps is Some
        }),
{
}

/// A clock reading of `secs` seconds and `nanos` nanoseconds past the epoch
/// is `secs * 1000 + nanos / 1_000_000` Unix milliseconds, where that fits
/// an `i64`; no reading gives none.
pub proof fn lemma_reading_in_millis(secs: u64, nanos: u32)
    requires
        nanos < 1_000_000_000,
    ensures
        secs * 1000 + nanos / 1_000_000 <= i64::MAX ==> millis_of_reading(Some((secs, nanos)))
            == Some((secs * 1000 + nanos / 1_000_000) as i64),
        secs * 1000 + nanos / 1_000_000 > i64::MAX ==> millis_of_reading(Some((secs, nanos))) is None,
        millis_of_reading(None) is None,
{
    assert((secs * 1_000_000_000 + nanos) / 1_000_000 == secs * 1000 + nanos / 1_000_000)
        by (nonlinear_arith)
        requires
            nanos < 1_000_000_000,
    ;
}

} // verus!
