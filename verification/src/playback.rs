//! The playback state a player shares with its widget: whether it is paused,
//! when it was last advanced, and the most recent captured frame.
use std::sync::Arc;
use vstd::prelude::*;

use crate::frame::{content_hash, content_hash_of, share, FrameData};

verus! {

/// The abstract playback state, over the instant type `T` of the clock.
pub struct PlaybackState<T> {
    /// When playback last advanced, if it has since it (re)started.
    pub last_tick: Option<T>,
    /// The frame currently shown, if one was captured.
    pub frame: Option<FrameData>,
    /// The content hash of that frame (0 before any frame).
    pub frame_hash: u64,
    pub paused: bool,
}

/// The state of a freshly loaded movie: playing, never advanced, no frame.
pub open spec fn initial_state<T>() -> PlaybackState<T> {
    PlaybackState { last_tick: None, frame: None, frame_hash: 0, paused: false }
}

/// Pausing keeps the last tick; resuming forgets it, so that the first advance
/// after resuming does not jump by the time spent paused.
pub open spec fn after_set_paused<T>(s: PlaybackState<T>, paused: bool) -> PlaybackState<T> {
    PlaybackState {
        paused,
        last_tick: if paused { s.last_tick } else { None },
        ..s
    }
}

/// The state after an advance at `now`, and what the advance reports: `None`
/// when paused (nothing happens), otherwise the previous tick, from which the
/// elapsed time is measured (no previous tick: zero elapsed time).
pub open spec fn after_advance<T>(s: PlaybackState<T>, now: T) -> (PlaybackState<T>, Option<Option<T>>) {
    if s.paused {
        (s, None)
    } else {
        (PlaybackState { last_tick: Some(now), ..s }, Some(s.last_tick))
    }
}

/// Whether a captured frame changes what is shown: when no frame is shown
/// yet, or its content hash differs from the shown one's.
pub open spec fn is_new_frame<T>(s: PlaybackState<T>, frame: FrameData) -> bool {
    s.frame is None || s.frame_hash != content_hash_of(frame.data@)
}

/// The state after a captured frame is offered: it becomes the shown frame,
/// with its content hash, exactly when it is new.
pub open spec fn after_offer<T>(s: PlaybackState<T>, frame: FrameData) -> PlaybackState<T> {
    if is_new_frame(s, frame) {
        PlaybackState { frame_hash: content_hash_of(frame.data@), frame: Some(frame), ..s }
    } else {
        s
    }
}

/// The shown frame, if any, carries the content hash of its pixels.
pub open spec fn hash_matches_frame<T>(s: PlaybackState<T>) -> bool {
    s.frame matches Some(f) ==> s.frame_hash == content_hash_of(f.data@)
}

/// Resuming avoids a jump in time: the first advance after resuming reports
/// no previous tick, so the player is ticked by zero, whatever state playback
/// was in and however long it was paused.
pub proof fn lemma_resume_starts_from_zero<T>(s: PlaybackState<T>, now: T)
    ensures
        after_advance(after_set_paused(s, false), now).1 == Some(Option::<T>::None),
{
}

/// While paused, advancing changes nothing and does not tick the player.
pub proof fn lemma_paused_is_frozen<T>(s: PlaybackState<T>, now: T)
    requires
        s.paused,
    ensures
        after_advance(s, now) == (s, Option::<Option<T>>::None),
{
}

/// `paused` reads back what `set_paused` wrote, and neither pausing,
/// resuming nor advancing touches the shown frame or its hash.
pub proof fn lemma_pause_keeps_frame<T>(s: PlaybackState<T>, paused: bool, now: T)
    ensures
        after_set_paused(s, paused).paused == paused,
        after_set_paused(s, paused).frame == s.frame,
        after_set_paused(s, paused).frame_hash == s.frame_hash,
        after_advance(s, now).0.frame == s.frame,
        after_advance(s, now).0.frame_hash == s.frame_hash,
        after_advance(s, now).0.paused == s.paused,
{
}

/// Consecutive advances measure time from one to the next: the second reports
/// the instant of the first.
pub proof fn lemma_advances_chain<T>(s: PlaybackState<T>, first: T, second: T)
    requires
        !s.paused,
    ensures
        after_advance(after_advance(s, first).0, second).1 == Some(Some(first)),
{
}

/// The first captured frame is always shown; after a frame is offered the
/// shown hash is its content hash; offering a frame with identical pixels
/// again changes nothing (an identical frame is not swapped in).
pub proof fn lemma_offer_idempotent<T>(s: PlaybackState<T>, frame: FrameData, again: FrameData)
    requires
        again.data@ == frame.data@,
    ensures
        s.frame is None ==> after_offer(s, frame).frame == Some(frame),
        after_offer(s, frame).frame is Some,
        after_offer(s, frame).frame_hash == content_hash_of(frame.data@),
        after_offer(after_offer(s, frame), again) == after_offer(s, frame),
{
}

/// Offering a frame does not touch the clock or the pause flag, so the
/// advance after an offered frame still measures from the advance before it.
pub proof fn lemma_offer_keeps_clock<T>(s: PlaybackState<T>, frame: FrameData, first: T, second: T)
    ensures
        after_offer(s, frame).last_tick == s.last_tick,
        after_offer(s, frame).paused == s.paused,
        !s.paused ==> after_advance(after_offer(after_advance(s, first).0, frame), second).1 == Some(
            Some(first),
        ),
{
}

/// Pausing keeps the time of the last advance; resuming forgets it; advancing
/// while playing records the advance's instant.
pub proof fn lemma_clock_transitions<T>(s: PlaybackState<T>, now: T)
    ensures
        after_set_paused(s, true).last_tick == s.last_tick,
        after_set_paused(s, false).last_tick is None,
        !s.paused ==> after_advance(s, now).0.last_tick == Some(now),
        !s.paused ==> after_advance(s, now).0.paused == false,
{
}

/// A new frame is swapped in exactly when none is shown or its pixels hash
/// differently; otherwise the shown frame and hash stay.
pub proof fn lemma_offer_replaces_exactly_new<T>(s: PlaybackState<T>, frame: FrameData)
    ensures
        (s.frame is None || s.frame_hash != content_hash_of(frame.data@)) ==> after_offer(
            s,
            frame,
        ).frame == Some(frame),
        (s.frame is Some && s.frame_hash == content_hash_of(frame.data@)) ==> after_offer(
            s,
            frame,
        ) == s,
{
}

/// A freshly loaded movie plays, has not advanced, and shows no frame.
pub proof fn lemma_initial_state<T>()
    ensures
        initial_state::<T>().paused == false,
        initial_state::<T>().last_tick is None,
        initial_state::<T>().frame is None,
{
}

/// Every state playback can reach shows a frame only together with the content
/// hash of its pixels: the initial state does, and pausing, advancing and
/// offering frames keep it so.
pub proof fn lemma_hash_always_matches_frame<T>(
    s: PlaybackState<T>,
    paused: bool,
    now: T,
    frame: FrameData,
)
    requires
        hash_matches_frame(s),
    ensures
        hash_matches_frame(initial_state::<T>()),
        hash_matches_frame(after_set_paused(s, paused)),
        hash_matches_frame(after_advance(s, now).0),
        hash_matches_frame(after_offer(s, frame)),
{
}

/// Playback state of a loaded movie, shared between the player and its widget.
pub struct Playback<T> {
    last_tick: Option<T>,
    frame: Option<Arc<FrameData>>,
    frame_hash: u64,
    paused: bool,
}

impl<T> View for Playback<T> {
    type V = PlaybackState<T>;

    closed spec fn view(&self) -> PlaybackState<T> {
        PlaybackState {
            last_tick: self.last_tick,
            frame: match self.frame {
                Some(f) => Some(*f),
                None => None,
            },
            frame_hash: self.frame_hash,
            paused: self.paused,
        }
    }
}

impl<T> Playback<T> {
    pub fn new() -> (p: Self)
        ensures
            p@ == initial_state::<T>(),
    {
        Playback { last_tick: None, frame: None, frame_hash: 0, paused: false }
    }

    /// Whether playback is paused.
    pub fn paused(&self) -> (b: bool)
        ensures
            b == self@.paused,
    {
        self.paused
    }

    /// Pause or resume playback. The player is to be told to play exactly when
    /// `paused` is false.
    pub fn set_paused(&mut self, paused: bool)
        ensures
            final(self)@ == after_set_paused(old(self)@, paused),
    {
        self.paused = paused;
        if !paused {
            self.last_tick = None;
        }
    }

    /// Record an advance at `now`. Returns `None` when paused (the player is
    /// not to be ticked); otherwise the previous tick, so the caller ticks the
    /// player by the time elapsed since it (zero when there is none).
    pub fn begin_advance(&mut self, now: T) -> (r: Option<Option<T>>)
        ensures
            (final(self)@, r) == after_advance(old(self)@, now),
    {
        if self.paused {
            return None;
        }
        let previous = self.last_tick.take();
        self.last_tick = Some(now);
        Some(previous)
    }

    /// Offer a newly captured frame: it is hashed, and becomes the shown frame
    /// if none is shown yet or its hash differs from the shown one's. Returns
    /// whether it did.
    pub fn offer_frame(&mut self, frame: FrameData) -> (changed: bool)
        ensures
            final(self)@ == after_offer(old(self)@, frame),
            changed == is_new_frame(old(self)@, frame),
    {
        let hash = content_hash(frame.data.as_slice());
        if self.frame.is_none() || self.frame_hash != hash {
            self.frame_hash = hash;
            self.frame = Some(Arc::new(frame));
            true
        } else {
            false
        }
    }

    /// The current frame and its content hash (the texture "version").
    pub fn frame(&self) -> (r: (u64, Option<Arc<FrameData>>))
        ensures
            r.0 == self@.frame_hash,
            match r.1 {
                Some(f) => self@.frame == Some(*f),
                None => self@.frame is None,
            },
    {
        let frame = match &self.frame {
            Some(f) => Some(share(f)),
            None => None,
        };
        (self.frame_hash, frame)
    }
}

} // verus!
