//! The playback controller: a FIFO queue of tracks, the state of the track
//! being played, and the most recently started track.
//!
//! The controller decides; it does no I/O. Each operation that starts a
//! track returns it, and whoever drives the output device opens it, then
//! reports back with `begin_playback` and `finish_track`.
use std::collections::VecDeque;
use std::rc::Rc;
use vstd::prelude::*;

use crate::decode::TrackOutcome;
use crate::error::{AudioOutputError, SinkError};
use crate::track::AudioTrack;

verus! {

/// What the controller is doing. Exactly one state holds at a time.
#[derive(Debug)]
pub enum PlaybackState {
    Idle,
    /// The track was started; no audio of it has reached the device yet.
    Loading(Rc<AudioTrack>),
    Playing(Rc<AudioTrack>),
    Paused(Rc<AudioTrack>),
}

/// The controller as a mathematical value.
pub struct PlayerModel {
    pub queue: Seq<Rc<AudioTrack>>,
    pub state: PlaybackState,
    pub last_played: Option<Rc<AudioTrack>>,
}

/// Whether a track is current (loading, playing or paused).
pub open spec fn has_current(s: PlaybackState) -> bool {
    !(s is Idle)
}

/// Start the head of the queue, or go idle and forget the last track when
/// the queue is empty.
pub open spec fn start_next(m: PlayerModel) -> PlayerModel {
    if m.queue.len() > 0 {
        PlayerModel {
            queue: m.queue.drop_first(),
            state: PlaybackState::Loading(m.queue[0]),
            last_played: Some(m.queue[0]),
        }
    } else {
        PlayerModel { queue: m.queue, state: PlaybackState::Idle, last_played: None }
    }
}

/// The track that `start_next` starts, if any.
pub open spec fn next_started(m: PlayerModel) -> Option<Rc<AudioTrack>> {
    if m.queue.len() > 0 {
        Some(m.queue[0])
    } else {
        None
    }
}

/// The controller with `t` queued last.
pub open spec fn appended(m: PlayerModel, t: Rc<AudioTrack>) -> PlayerModel {
    PlayerModel { queue: m.queue.push(t), ..m }
}

/// A poll advances only when nothing is current and the device is drained.
pub open spec fn advances(m: PlayerModel, drained: bool) -> bool {
    drained && m.state is Idle
}

/// The controller after a poll.
pub open spec fn advanced(m: PlayerModel, drained: bool) -> PlayerModel {
    if advances(m, drained) {
        start_next(m)
    } else {
        m
    }
}

/// The track that a poll starts, if any.
pub open spec fn advance_started(m: PlayerModel, drained: bool) -> Option<Rc<AudioTrack>> {
    if advances(m, drained) {
        next_started(m)
    } else {
        None
    }
}

/// The controller after pause is toggled.
pub open spec fn toggled(m: PlayerModel) -> PlayerModel {
    match m.state {
        PlaybackState::Playing(t) => PlayerModel { state: PlaybackState::Paused(t), ..m },
        PlaybackState::Paused(t) => PlayerModel { state: PlaybackState::Playing(t), ..m },
        _ => m,
    }
}

/// The controller after it is cleared.
pub open spec fn cleared(m: PlayerModel) -> PlayerModel {
    PlayerModel { queue: Seq::empty(), state: PlaybackState::Idle, last_played: None }
}

/// The controller after the current track ended.
pub open spec fn finished(m: PlayerModel) -> PlayerModel {
    PlayerModel { state: PlaybackState::Idle, ..m }
}

/// The controller once audio of the loading track reached the device.
pub open spec fn begun(m: PlayerModel) -> PlayerModel {
    match m.state {
        PlaybackState::Loading(t) => PlayerModel { state: PlaybackState::Playing(t), ..m },
        _ => m,
    }
}

/// How the controller takes the end of a track: a track that completed or
/// failed lets the queue go on; a failed device stops playback altogether.
pub open spec fn ended(m: PlayerModel, outcome: TrackOutcome) -> PlayerModel {
    match outcome {
        TrackOutcome::DeviceFailed(_) => cleared(m),
        _ => finished(m),
    }
}

/// The playback controller.
pub struct Player {
    queue: VecDeque<Rc<AudioTrack>>,
    state: PlaybackState,
    last_played: Option<Rc<AudioTrack>>,
}

impl View for Player {
    type V = PlayerModel;

    closed spec fn view(&self) -> PlayerModel {
        PlayerModel { queue: self.queue@, state: self.state, last_played: self.last_played }
    }
}

/// Relies on `Rc::clone`: a second handle to the same track.
#[verifier::external_body]
fn share(t: &Rc<AudioTrack>) -> (r: Rc<AudioTrack>)
    ensures
        r == *t,
{
    Rc::clone(t)
}

impl Player {
    /// An idle controller with an empty queue.
    pub fn new() -> (r: Player)
        ensures
            r@.queue.len() == 0,
            r@.state is Idle,
            r@.last_played.is_none(),
    {
        Player { queue: VecDeque::new(), state: PlaybackState::Idle, last_played: None }
    }

    /// Appends a track to the tail of the queue.
    pub fn append_queue(&mut self, track: Rc<AudioTrack>)
        ensures
            final(self)@ == appended(old(self)@, track),
    {
        self.queue.push_back(track);
    }

    fn play_next(&mut self) -> (r: Option<Rc<AudioTrack>>)
        ensures
            final(self)@ == start_next(old(self)@),
            r == next_started(old(self)@),
    {
        match self.queue.pop_front() {
            Some(t) => {
                self.last_played = Some(share(&t));
                let started = share(&t);
                self.state = PlaybackState::Loading(t);
                Some(started)
            },
            None => {
                self.state = PlaybackState::Idle;
                self.last_played = None;
                None
            },
        }
    }

    /// The periodic poll. When no track is current and the device reports
    /// that no audio is pending, the head of the queue starts and is
    /// returned; an empty queue leaves the controller idle and forgets the
    /// last played track. Otherwise nothing changes.
    pub fn try_next(&mut self, drained: bool) -> (r: Option<Rc<AudioTrack>>)
        ensures
            final(self)@ == advanced(old(self)@, drained),
            r == advance_started(old(self)@, drained),
    {
        if drained && self.is_idle() {
            self.play_next()
        } else {
            None
        }
    }

    /// Ends the current track at once, whatever the device still holds,
    /// and starts the next one in the queue, which is returned.
    pub fn skip_one(&mut self) -> (r: Option<Rc<AudioTrack>>)
        ensures
            final(self)@ == start_next(old(self)@),
            r == next_started(old(self)@),
    {
        self.play_next()
    }

    /// Pauses a playing track, resumes a paused one; otherwise does nothing.
    pub fn toggle_pause(&mut self)
        ensures
            final(self)@ == toggled(old(self)@),
    {
        let next = match &self.state {
            PlaybackState::Playing(t) => Some(PlaybackState::Paused(share(t))),
            PlaybackState::Paused(t) => Some(PlaybackState::Playing(share(t))),
            _ => None,
        };
        if let Some(s) = next {
            self.state = s;
        }
    }

    /// Stops playback, empties the queue and forgets the last played track.
    pub fn clear_queue(&mut self)
        ensures
            final(self)@ == cleared(old(self)@),
    {
        self.queue.clear();
        self.state = PlaybackState::Idle;
        self.last_played = None;
    }

    /// The first audio of the loading track reached the device.
    pub fn begin_playback(&mut self)
        ensures
            final(self)@ == begun(old(self)@),
    {
        let next = match &self.state {
            PlaybackState::Loading(t) => Some(PlaybackState::Playing(share(t))),
            _ => None,
        };
        if let Some(s) = next {
            self.state = s;
        }
    }

    /// The current track ended, played out or failed; the last played
    /// track is kept.
    pub fn finish_track(&mut self)
        ensures
            final(self)@ == finished(old(self)@),
    {
        self.state = PlaybackState::Idle;
    }

    /// The current track ended with `outcome`. A failed track is passed over
    /// like one that completed; a device failure clears the controller and
    /// is returned, to be reported once.
    pub fn end_track(&mut self, outcome: TrackOutcome) -> (r: Option<AudioOutputError>)
        ensures
            final(self)@ == ended(old(self)@, outcome),
            r == match outcome {
                TrackOutcome::DeviceFailed(e) => Some(e),
                _ => None::<AudioOutputError>,
            },
    {
        match outcome {
            TrackOutcome::DeviceFailed(e) => {
                self.clear_queue();
                Some(e)
            },
            _ => {
                self.finish_track();
                None
            },
        }
    }

    /// What the controller is doing.
    pub fn state(&self) -> (r: &PlaybackState)
        ensures
            *r == self@.state,
    {
        &self.state
    }

    pub fn is_idle(&self) -> (r: bool)
        ensures
            r == (self@.state is Idle),
    {
        match self.state {
            PlaybackState::Idle => true,
            _ => false,
        }
    }

    pub fn is_paused(&self) -> (r: bool)
        ensures
            r == (self@.state is Paused),
    {
        match self.state {
            PlaybackState::Paused(_) => true,
            _ => false,
        }
    }

    pub fn queue_len(&self) -> (r: usize)
        ensures
            r == self@.queue.len(),
    {
        self.queue.len()
    }

    pub fn is_queue_empty(&self) -> (r: bool)
        ensures
            r == (self@.queue.len() == 0),
    {
        self.queue.len() == 0
    }

    /// The track most recently started, if it is still remembered.
    pub fn last_played(&self) -> (r: Option<&Rc<AudioTrack>>)
        ensures
            match self@.last_played {
                Some(t) => r == Some(&t),
                None => r.is_none(),
            },
    {
        match &self.last_played {
            Some(t) => Some(t),
            None => None,
        }
    }
}

/// A track ends and the next one starts: by a natural end, reported with
/// `finish_track` and followed by a poll of a drained device, or by a skip.
pub open spec fn completed(m: PlayerModel, by_skip: bool) -> PlayerModel {
    if by_skip {
        start_next(m)
    } else {
        advanced(finished(m), true)
    }
}

/// The controller after one completion per entry of `how`, in order.
pub open spec fn completed_all(m: PlayerModel, how: Seq<bool>) -> PlayerModel
    decreases how.len(),
{
    if how.len() == 0 {
        m
    } else {
        completed(completed_all(m, how.drop_last()), how.last())
    }
}

/// A poll never starts a track while another is current, and a poll that
/// starts one takes exactly that one off the head of the queue.
pub proof fn lemma_poll_starts_at_most_one(m: PlayerModel, drained: bool)
    ensures
        has_current(m.state) ==> advanced(m, drained) == m && advance_started(m, drained).is_none(),
        advance_started(m, drained).is_some() ==> {
            &&& !has_current(m.state)
            &&& advanced(m, drained).queue.len() == m.queue.len() - 1
            &&& advanced(m, drained).queue == m.queue.drop_first()
            &&& advanced(m, drained).state == PlaybackState::Loading(m.queue[0])
        },
{
}

/// However a track ends, natural end or skip, the queue loses exactly its
/// head, and that head is the track that starts.
pub proof fn lemma_completion_takes_one(m: PlayerModel, by_skip: bool)
    requires
        m.queue.len() > 0,
    ensures
        completed(m, by_skip).queue.len() == m.queue.len() - 1,
        completed(m, by_skip).queue == m.queue.drop_first(),
        completed(m, by_skip).state == PlaybackState::Loading(m.queue[0]),
        completed(m, by_skip).last_played == Some(m.queue[0]),
{
}

/// Tracks play in the order they were queued: after `k` completions, of
/// either kind, the first `k` tracks are gone, the `k`-th is current, and
/// the rest wait in their order.
pub proof fn lemma_queue_order_kept(m: PlayerModel, how: Seq<bool>)
    requires
        how.len() <= m.queue.len(),
    ensures
        completed_all(m, how).queue == m.queue.skip(how.len() as int),
        how.len() > 0 ==> completed_all(m, how).state == PlaybackState::Loading(
            m.queue[how.len() - 1],
        ),
    decreases how.len(),
{
    if how.len() > 0 {
        let before = completed_all(m, how.drop_last());
        lemma_queue_order_kept(m, how.drop_last());
        lemma_completion_takes_one(before, how.last());
        assert(before.queue.drop_first() =~= m.queue.skip(how.len() as int));
    } else {
        assert(m.queue.skip(0) =~= m.queue);
    }
}

/// A skip starts the next queued track at once: it does not wait for the
/// device to drain, and it replaces whatever track was current.
pub proof fn lemma_skip_starts_next(m: PlayerModel)
    requires
        m.queue.len() > 0,
    ensures
        next_started(m) == Some(m.queue[0]),
        start_next(m).state == PlaybackState::Loading(m.queue[0]),
        start_next(m).queue.len() == m.queue.len() - 1,
{
}

/// Clearing leaves an empty queue, an idle controller and no last played
/// track, from any state.
pub proof fn lemma_clear_resets(m: PlayerModel)
    ensures
        cleared(m).queue.len() == 0,
        cleared(m).state is Idle,
        cleared(m).last_played.is_none(),
{
}

/// A track that failed to decode is passed over exactly as one that played
/// to its end: the controller is left in the same state.
pub proof fn lemma_failed_track_like_completed(m: PlayerModel, e: SinkError)
    ensures
        ended(m, TrackOutcome::Failed(e)) == ended(m, TrackOutcome::Completed),
        ended(m, TrackOutcome::Completed).queue == m.queue,
        ended(m, TrackOutcome::Completed).state is Idle,
{
}

} // verus!
