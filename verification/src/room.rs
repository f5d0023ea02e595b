//! A room in which members watch a playlist together: which video plays, and
//! how far into it the room is, kept against a monotonic clock.
//!
//! Every point in time is held as the nanoseconds since the room's `epoch`,
//! the instant at which it was made; the logic on those numbers stands in the
//! `*_at` methods, which take the clock's readings as arguments.

use std::collections::HashMap;
use std::time::Instant;
use vstd::prelude::*;
use vstd::string::StringExecFns;

use crate::fanout::{unbounded, AoW, Receiver, Sender};
use crate::clock::{duration_nanos, elapsed_since, instant_now, Readings};
use crate::entropy::random_below;

verus! {

broadcast use vstd::std_specs::hash::group_hash_axioms;

/// `uuid::Uuid::nil`, as its 128-bit number: the UUID whose bits are all
/// zero.
#[verifier::external_body]
fn nil_uuid() -> (r: u128)
    ensures
        r == 0,
{
    uuid::Uuid::nil().as_u128()
}

/// A change of a room's state that its members are told of.
#[derive(Clone, Copy, Debug, PartialEq, Eq)]
pub enum StateUpdate {
    CurrentPosition,
}

/// A request to a room from one of its members.
#[derive(Clone, Debug, PartialEq, Eq)]
pub enum RoomRequest {
    /// The member named `old` asks to be named `new`.
    UpdateUsername { old: String, new: String },
}

/// What a room holds, as mathematical values.
pub struct RoomState {
    pub id: Seq<char>,
    pub video_index: u32,
    /// Each entry: the video's address and the UUID of whoever queued it.
    pub playlist: Seq<(Seq<char>, u128)>,
    pub playing_since: u128,
    pub paused_since: Option<u128>,
    pub pause_subtraction: u128,
    pub members: Map<u128, Seq<char>>,
}

/// `later - earlier` on two instants, which is zero when `later` is the
/// earlier one.
pub open spec fn since(later: u128, earlier: u128) -> int {
    if later >= earlier {
        later - earlier
    } else {
        0
    }
}

impl RoomState {
    /// The time since playback started, less the time spent paused since
    /// then, at reading `first`.
    pub open spec fn played(self, first: u128) -> int {
        since(first, self.playing_since) - self.pause_subtraction
    }

    /// Whether the position in the video, read at `first` (and at `second`
    /// for the current pause), is defined: neither subtraction goes below
    /// zero.
    pub open spec fn position_defined(self, first: u128, second: u128) -> bool {
        &&& self.played(first) >= 0
        &&& self.paused_since matches Some(p) ==> self.played(first) - since(second, p) >= 0
    }

    /// The position in the video: the time played at reading `first`, less
    /// the length of the current pause at reading `second`.
    pub open spec fn position(self, first: u128, second: u128) -> int {
        match self.paused_since {
            Some(p) => self.played(first) - since(second, p),
            None => self.played(first),
        }
    }

    /// The room after playback resumes at `now`: the current pause, if there
    /// is one, ends and its length counts as time not played.
    pub open spec fn resumed(self, now: u128) -> RoomState {
        match self.paused_since {
            Some(p) => RoomState {
                paused_since: None,
                pause_subtraction: (self.pause_subtraction + since(now, p)) as u128,
                ..self
            },
            None => self,
        }
    }

    /// The room after skipping to the next video at `now`: playback counts
    /// from `now`, and the index moves on unless it has reached the length
    /// of the playlist (taken as a `u32`).
    pub open spec fn skipped(self, now: u128) -> RoomState {
        RoomState {
            playing_since: now,
            video_index: if self.video_index < (self.playlist.len() as u32) {
                (self.video_index + 1) as u32
            } else {
                self.video_index
            },
            ..self
        }
    }
}

impl RoomState {
    /// A pause in progress has not yet counted any time as not played.
    pub open spec fn wf(self) -> bool {
        self.paused_since is Some ==> self.pause_subtraction == 0
    }
}

/// The address of the video that every new room starts with.
pub open spec fn first_video() -> Seq<char> {
    "https://www.youtube.com/watch?v=dQw4w9WgXcQ"@
}

/// A room: its playlist and playback state, its members, and the broadcast
/// channel on which it tells its members of changes.
pub struct Room {
    id: String,
    video_index: u32,
    playlist: Vec<(String, u128)>,
    epoch: Instant,
    readings: Readings,
    playing_since: u128,
    paused_since: Option<u128>,
    pause_subtraction: u128,
    members: HashMap<u128, String>,
    broadcaster: Sender<StateUpdate>,
    receiver: Receiver<StateUpdate>,
}

impl View for Room {
    type V = RoomState;

    closed spec fn view(&self) -> RoomState {
        RoomState {
            id: self.id@,
            video_index: self.video_index,
            playlist: self.playlist@.map_values(|e: (String, u128)| (e.0@, e.1)),
            playing_since: self.playing_since,
            paused_since: self.paused_since,
            pause_subtraction: self.pause_subtraction,
            members: self.members@.map_values(|n: String| n@),
        }
    }
}

impl Room {
    #[verifier::type_invariant]
    closed spec fn inv(self) -> bool {
        self.paused_since is Some ==> self.pause_subtraction == 0
    }

    /// The sending half of the room's broadcast channel.
    pub closed spec fn broadcaster(self) -> Sender<StateUpdate> {
        self.broadcaster
    }

    /// The room's own receiver on its broadcast channel.
    pub closed spec fn receiver(self) -> Receiver<StateUpdate> {
        self.receiver
    }

    /// The instant at which the room was made, from which its clock counts.
    pub closed spec fn epoch(self) -> Instant {
        self.epoch
    }

    /// The clock readings that `play` and `next` took, in order.
    pub closed spec fn readings(self) -> Seq<u128> {
        self.readings.all()
    }

    /// `after` has the broadcast channel, the room's own receiver and the
    /// clock of `before`.
    pub open spec fn keeps_channels(before: Room, after: Room) -> bool {
        &&& after.broadcaster() == before.broadcaster()
        &&& after.receiver() == before.receiver()
        &&& after.epoch() == before.epoch()
    }

    /// A paused room named `id`, at the start of a playlist that holds one
    /// video, with no members, and a receiver on its broadcast channel for the
    /// caller. The room keeps a receiver of its own, which holds the channel
    /// only weakly.
    pub fn new(id: String) -> (r: (Self, Receiver<StateUpdate>))
        ensures
            r.0@.id == id@,
            r.0@.wf(),
            r.0@.video_index == 0,
            r.0@.playlist == seq![(first_video(), 0u128)],
            r.0@.playing_since == 0,
            r.0@.paused_since == Some(0u128),
            r.0@.pause_subtraction == 0,
            r.0@.members == Map::<u128, Seq<char>>::empty(),
            r.0.broadcaster().outlets().len() == 1,
            !r.0.receiver().is_strong(),
            r.1.is_strong(),
            r.0.receiver().feedback() matches AoW::Weak(w) && r.1.feedback() matches AoW::Arc(a)
                && w.target() == a,
    {
        let epoch = instant_now();
        let (tx, rx) = unbounded();
        let mut lw = rx.clone();
        lw.downgrade();
        let first = String::from_str("https://www.youtube.com/watch?v=dQw4w9WgXcQ");
        let entry = (first, nil_uuid());
        let playlist = vec![entry];
        let members: HashMap<u128, String> = HashMap::new();
        let room = Room {
            id,
            video_index: 0,
            playlist,
            epoch,
            readings: Readings::new(),
            playing_since: 0,
            paused_since: Some(0),
            pause_subtraction: 0,
            members,
            broadcaster: tx,
            receiver: lw,
        };
        proof {
            assert(room@.playlist =~= seq![(first_video(), 0u128)]);
            assert(room@.members =~= Map::<u128, Seq<char>>::empty());
        }
        (room, rx)
    }

    /// The room's id.
    pub fn id(&self) -> (r: &String)
        ensures
            r@ == self@.id,
    {
        &self.id
    }

    /// The index of the video that plays.
    pub fn video_index(&self) -> (r: u32)
        ensures
            r == self@.video_index,
    {
        self.video_index
    }

    /// The playlist: each video's address and the UUID of whoever queued it.
    pub fn playlist(&self) -> (r: &Vec<(String, u128)>)
        ensures
            r@.map_values(|e: (String, u128)| (e.0@, e.1)) == self@.playlist,
    {
        &self.playlist
    }

    /// The reading since which the video plays.
    pub fn playing_since(&self) -> (r: u128)
        ensures
            r == self@.playing_since,
    {
        self.playing_since
    }

    /// The reading since which the room is paused, if it is.
    pub fn paused_since(&self) -> (r: Option<u128>)
        ensures
            r == self@.paused_since,
    {
        self.paused_since
    }

    /// The time spent paused that no longer counts as played.
    pub fn pause_subtraction(&self) -> (r: u128)
        ensures
            r == self@.pause_subtraction,
    {
        self.pause_subtraction
    }

    /// The members, by UUID.
    pub fn members(&self) -> (r: &HashMap<u128, String>)
        ensures
            r@.map_values(|n: String| n@) == self@.members,
    {
        &self.members
    }

    /// A reading of the clock: the nanoseconds since the room was made.
    fn clock(&self) -> u128 {
        let mut scratch = Readings::new();
        duration_nanos(&elapsed_since(&self.epoch), &mut scratch)
    }

    /// A reading of the clock, which joins the room's readings.
    fn read_clock(&mut self) -> (r: u128)
        ensures
            final(self).readings() == old(self).readings().push(r),
            final(self)@ == old(self)@,
            Room::keeps_channels(*old(self), *final(self)),
    {
        proof {
            use_type_invariant(&*self);
        }
        let mut log = Readings::new();
        std::mem::swap(&mut log, &mut self.readings);
        let d = elapsed_since(&self.epoch);
        let r = duration_nanos(&d, &mut log);
        self.readings = log;
        r
    }

    /// The position in the video, with the clock read as `first` for the time
    /// played and as `second` for the current pause; `None` where either
    /// subtraction would go below zero.
    pub fn position_at(&self, first: u128, second: u128) -> (r: Option<u128>)
        ensures
            r is Some <==> self@.position_defined(first, second),
            r matches Some(d) ==> d == self@.position(first, second),
    {
        let played = first.saturating_sub(self.playing_since);
        if played < self.pause_subtraction {
            return None;
        }
        let mut dur = played - self.pause_subtraction;
        if let Some(pause) = self.paused_since {
            let paused = second.saturating_sub(pause);
            if dur < paused {
                return None;
            }
            dur = dur - paused;
        }
        Some(dur)
    }

    /// The position in the video now, in nanoseconds, read from the clock
    /// (twice while paused); `None` where a subtraction would go below zero.
    pub fn time(&self) -> (r: Option<u128>)
        ensures
            r matches Some(d) ==> exists|first: u128, second: u128|
                self@.position_defined(first, second) && d == self@.position(first, second),
            r is None ==> exists|first: u128, second: u128| !self@.position_defined(first, second),
    {
        let first = self.clock();
        let second = if self.paused_since.is_some() {
            self.clock()
        } else {
            first
        };
        self.position_at(first, second)
    }

    /// Resumes playback at reading `now`, when the room is paused.
    pub fn play_at(&mut self, now: u128)
        ensures
            final(self)@ == old(self)@.resumed(now),
            final(self)@.paused_since is None,
            old(self)@.paused_since matches Some(p) ==> final(self)@.pause_subtraction
                == old(self)@.pause_subtraction + since(now, p),
            old(self)@.paused_since is None ==> *final(self) == *old(self),
            old(self)@.wf(),
            final(self)@.wf(),
            Room::keeps_channels(*old(self), *final(self)),
            final(self).readings() == old(self).readings(),
    {
        proof {
            use_type_invariant(&*self);
        }
        if self.paused_since.is_none() {
            return;
        }
        let start = self.paused_since.unwrap();
        self.paused_since = None;
        let end = now.saturating_sub(start);
        self.pause_subtraction = self.pause_subtraction + end;
    }

    /// Resumes playback now, when the room is paused; a playing room is left
    /// as it is.
    pub fn play(&mut self)
        ensures
            old(self)@.paused_since is None ==> *final(self) == *old(self),
            exists|now: u128| {
                &&& final(self)@ == #[trigger] old(self)@.resumed(now)
                &&& old(self)@.paused_since matches Some(p) ==> final(self)@.pause_subtraction
                    == old(self)@.pause_subtraction + since(now, p)
            },
            final(self)@.paused_since is None,
            final(self)@.wf(),
            Room::keeps_channels(*old(self), *final(self)),
            old(self)@.paused_since is Some ==> {
                &&& final(self).readings().len() == old(self).readings().len() + 1
                &&& final(self).readings().drop_last() == old(self).readings()
                &&& final(self)@ == old(self)@.resumed(final(self).readings().last())
            },
    {
        proof {
            use_type_invariant(&*self);
        }
        if self.paused_since.is_none() {
            assert(self@ == old(self)@.resumed(0));
            return;
        }
        let now = self.read_clock();
        self.play_at(now);
        assert(self.readings().drop_last() =~= old(self).readings());
    }

    /// Leaves the room as it is: a paused room stays paused, and a playing
    /// room is not paused either.
    pub fn pause(&mut self)
        ensures
            *final(self) == *old(self),
    {
        if self.paused_since.is_some() {
            return;
        }
    }

    /// Skips to the next video at reading `now`.
    pub fn next_at(&mut self, now: u128)
        ensures
            final(self)@ == old(self)@.skipped(now),
            old(self)@.wf(),
            final(self)@.wf(),
            Room::keeps_channels(*old(self), *final(self)),
            final(self).readings() == old(self).readings(),
    {
        proof {
            use_type_invariant(&*self);
        }
        self.playing_since = now;
        self.pause();
        let len = self.playlist.len() as u32;
        if self.video_index < len {
            self.video_index = self.video_index + 1;
        }
    }

    /// Skips to the next video now.
    pub fn next(&mut self)
        ensures
            exists|now: u128| final(self)@ == old(self)@.skipped(now),
            final(self)@.wf(),
            Room::keeps_channels(*old(self), *final(self)),
            final(self).readings() == old(self).readings().push(final(self)@.playing_since),
            final(self)@ == old(self)@.skipped(final(self)@.playing_since),
    {
        let now = self.read_clock();
        self.next_at(now);
    }
}

/// The state of a room that was just made, at the start of its playlist.
pub open spec fn fresh_state(v: RoomState) -> bool {
    &&& v.video_index == 0
    &&& v.playing_since == 0
    &&& v.paused_since == Some(0u128)
    &&& v.pause_subtraction == 0
}

/// Resuming is done once: resuming a room that already plays changes nothing.
pub proof fn lemma_resume_once(v: RoomState, a: u128, b: u128)
    ensures
        v.resumed(a).resumed(b) == v.resumed(a),
        v.resumed(a).paused_since is None,
{
}

/// Pausing never happens: once a room plays, skipping and resuming keep it
/// playing.
pub proof fn lemma_playing_stays(v: RoomState, a: u128, n: u128, b: u128)
    ensures
        v.resumed(a).skipped(n).paused_since is None,
        v.resumed(a).skipped(n).resumed(b) == v.resumed(a).skipped(n),
{
}

/// Skipping never moves the index past the length of the playlist (taken as
/// a `u32`), and moves it by one while it is below that.
pub proof fn lemma_skip_bounded(v: RoomState, now: u128)
    requires
        v.video_index <= (v.playlist.len() as u32),
    ensures
        v.skipped(now).video_index <= (v.playlist.len() as u32),
        v.video_index < (v.playlist.len() as u32) ==> v.skipped(now).video_index == v.video_index + 1,
        v.skipped(now).playlist == v.playlist,
{
}

/// In a room that was just made, the position is defined only where the
/// clock's two readings agree or the first is the later, and it is their
/// difference: the pause since the start cancels the time since the start.
pub proof fn lemma_fresh_position(v: RoomState, first: u128, second: u128)
    requires
        fresh_state(v),
    ensures
        v.position_defined(first, second) <==> second <= first,
        second <= first ==> v.position(first, second) == first - second,
{
}

/// Once a room that was just made starts playing at `t`, its position at a
/// later reading is the time since `t`; before `t` it is not defined.
pub proof fn lemma_position_after_resume(v: RoomState, t: u128, first: u128, second: u128)
    requires
        fresh_state(v),
    ensures
        v.resumed(t).position_defined(first, second) <==> t <= first,
        t <= first ==> v.resumed(t).position(first, second) == first - t,
{
}

/// While a room plays, its position advances with the clock: a later reading
/// gives a position later by the time between the readings.
pub proof fn lemma_position_advances(v: RoomState, a: u128, b: u128, x: u128, y: u128)
    requires
        v.paused_since is None,
        v.playing_since <= a <= b,
        v.position_defined(a, x),
    ensures
        v.position_defined(b, y),
        v.position(b, y) == v.position(a, x) + (b - a),
{
}

/// While a room is paused, its position stands still: moving both readings
/// on by the same time leaves it as it was.
pub proof fn lemma_position_frozen(v: RoomState, a: u128, a2: u128, b: u128, b2: u128)
    requires
        v.paused_since matches Some(p) && p <= a2 <= b2,
        v.playing_since <= a <= b,
        b - a == b2 - a2,
        v.position_defined(a, a2),
    ensures
        v.position_defined(b, b2),
        v.position(b, b2) == v.position(a, a2),
{
}

/// Resuming does not move the position: right after a paused room resumes at
/// `now`, its position at `now` is what it was at `now` just before.
pub proof fn lemma_resume_keeps_position(v: RoomState, now: u128, x: u128)
    requires
        v.wf(),
        v.paused_since matches Some(p) && p <= now,
    ensures
        v.resumed(now).position_defined(now, x) == v.position_defined(now, now),
        v.position_defined(now, now) ==> v.resumed(now).position(now, x) == v.position(now, now),
{
}

/// `play` resumes a paused room at the clock reading it takes: the time
/// since the pause began, up to that reading, counts as not played, so the
/// position at that reading is the same just before and just after; and the
/// room no longer pauses.
pub proof fn lemma_play_resumes_at_reading(before: Room, after: Room, x: u128)
    requires
        before@.wf(),
        before@.paused_since matches Some(p) && p <= after.readings().last(),
        after.readings().len() == before.readings().len() + 1,
        after.readings().drop_last() == before.readings(),
        after@ == before@.resumed(after.readings().last()),
    ensures
        after@.paused_since is None,
        after@.pause_subtraction == before@.pause_subtraction + (after.readings().last()
            - before@.paused_since.unwrap()),
        after@.position_defined(after.readings().last(), x) == before@.position_defined(
            after.readings().last(),
            after.readings().last(),
        ),
        before@.position_defined(after.readings().last(), after.readings().last()) ==> after@.position(
            after.readings().last(),
            x,
        ) == before@.position(after.readings().last(), after.readings().last()),
{
}

/// `next` restarts playback at the clock reading it takes: the new video's
/// position at a later reading, while the room plays, is the time since that
/// reading, less the time already counted as not played.
pub proof fn lemma_next_restarts_at_reading(before: Room, after: Room, later: u128, x: u128)
    requires
        after.readings() == before.readings().push(after@.playing_since),
        after@ == before@.skipped(after@.playing_since),
        after@.paused_since is None,
        after.readings().last() <= later,
    ensures
        after@.playing_since == after.readings().last(),
        after@.position_defined(later, x) <==> later - after.readings().last() >= before@.pause_subtraction,
        after@.position_defined(later, x) ==> after@.position(later, x) == later - after.readings().last()
            - before@.pause_subtraction,
{
}

/// Three words joined by hyphens.
pub open spec fn hyphenated(a: Seq<char>, b: Seq<char>, c: Seq<char>) -> Seq<char> {
    a + seq!['-'] + b + seq!['-'] + c
}

/// The words at `a`, `b` and `c` of `words`, joined by hyphens.
pub fn id_from_words(words: &Vec<String>, a: usize, b: usize, c: usize) -> (r: String)
    requires
        a < words.len(),
        b < words.len(),
        c < words.len(),
    ensures
        r@ == hyphenated(words@[a as int]@, words@[b as int]@, words@[c as int]@),
{
    proof {
        reveal_strlit("-");
    }
    let mut id = words[a].clone();
    id.append("-");
    id.append(words[b].as_str());
    id.append("-");
    id.append(words[c].as_str());
    id
}

/// A room id: three words of `words`, each picked at random, joined by
/// hyphens.
pub fn gen_id(words: &Vec<String>) -> (r: String)
    requires
        words.len() > 0,
    ensures
        exists|a: int, b: int, c: int|
            0 <= a < words.len() && 0 <= b < words.len() && 0 <= c < words.len() && r@
                == hyphenated(words@[a]@, words@[b]@, words@[c]@),
{
    let a = random_below(words.len());
    let b = random_below(words.len());
    let c = random_below(words.len());
    id_from_words(words, a, b, c)
}

} // verus!
