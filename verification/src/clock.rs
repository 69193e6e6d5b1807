//! Wall-clock bookkeeping of the playback position.
//!
//! The clock never asks the decoder where it is. It remembers the position at
//! which playback last (re)started and the instant at which that happened, and
//! derives the elapsed time from the instant it is queried with.

use vstd::prelude::*;

verus! {

/// Nanoseconds in one second.
pub const NANOS_PER_SEC: u128 = 1_000_000_000;

/// A point on a monotonic clock, in nanoseconds since an origin that the
/// caller fixes once.
#[derive(Clone, Copy, Debug, PartialEq, Eq, Structural)]
pub struct Timestamp {
    pub nanos: u128,
}

/// Whole seconds that lie between `earlier` and `later`; zero when `later`
/// is not after `earlier`.
pub open spec fn whole_seconds_between(earlier: Timestamp, later: Timestamp) -> int {
    if later.nanos >= earlier.nanos {
        (later.nanos - earlier.nanos) / (NANOS_PER_SEC as int)
    } else {
        0
    }
}

/// `x` cut off at the largest position that a `u64` can hold.
pub open spec fn saturated(x: int) -> int {
    if x > u64::MAX as int {
        u64::MAX as int
    } else {
        x
    }
}

/// `base` seconds plus the whole seconds between two instants, cut off at the
/// largest representable position.
pub open spec fn advanced(base: u64, from: Timestamp, to: Timestamp) -> int {
    saturated(base + whole_seconds_between(from, to))
}

/// Executable form of [`advanced`].
pub fn advance(base: u64, from: Timestamp, to: Timestamp) -> (position: u64)
    ensures
        position == advanced(base, from, to),
{
    if to.nanos >= from.nanos {
        let secs: u128 = (to.nanos - from.nanos) / NANOS_PER_SEC;
        let room: u64 = u64::MAX - base;
        if secs > room as u128 {
            u64::MAX
        } else {
            base + secs as u64
        }
    } else {
        base
    }
}

/// Elapsed-time tracker of the track being played.
///
/// While running, the position is `base_position` plus the time since
/// `reference`. While paused, it is frozen at `base_position` plus the time
/// from `reference` to `pause_instant`. Without a `reference` nothing is
/// loaded and the position is zero.
#[derive(Clone, Copy, Debug, PartialEq, Eq, Structural)]
pub struct PlaybackClock {
    pub reference: Option<Timestamp>,
    pub base_position: u64,
    pub paused: bool,
    pub pause_instant: Option<Timestamp>,
}

impl PlaybackClock {
    /// The clock of an engine with nothing loaded.
    pub open spec fn idle() -> PlaybackClock {
        PlaybackClock { reference: None, base_position: 0, paused: false, pause_instant: None }
    }

    /// The clock right after playback (re)started at `offset` seconds.
    pub open spec fn started(now: Timestamp, offset: u64) -> PlaybackClock {
        PlaybackClock {
            reference: Some(now),
            base_position: offset,
            paused: false,
            pause_instant: None,
        }
    }

    /// Whether a track is loaded and its position is moving.
    pub open spec fn is_running(self) -> bool {
        self.reference is Some && !self.paused
    }

    /// Whether the position is frozen at a recorded pause instant.
    pub open spec fn is_frozen(self) -> bool {
        self.reference is Some && self.paused && self.pause_instant is Some
    }

    /// The instant up to which time counts when the clock is read at `now`.
    pub open spec fn horizon(self, now: Timestamp) -> Timestamp {
        if self.paused && self.pause_instant is Some {
            self.pause_instant->0
        } else {
            now
        }
    }

    /// Elapsed playback seconds when the clock is read at `now`.
    pub open spec fn elapsed_at(self, now: Timestamp) -> int {
        match self.reference {
            Some(start) => advanced(self.base_position, start, self.horizon(now)),
            None => 0,
        }
    }

    /// The clock after a pause recorded at `now`.
    pub open spec fn paused_at(self, now: Timestamp) -> PlaybackClock {
        PlaybackClock { paused: true, pause_instant: Some(now), ..self }
    }

    /// The clock after a resume at `now`: the time played before the pause is
    /// folded into the base position, and counting restarts from `now`.
    pub open spec fn resumed_at(self, now: Timestamp) -> PlaybackClock {
        if self.paused && self.reference is Some && self.pause_instant is Some {
            PlaybackClock {
                reference: Some(now),
                base_position: advanced(
                    self.base_position,
                    self.reference->0,
                    self.pause_instant->0,
                ) as u64,
                paused: false,
                pause_instant: None,
            }
        } else {
            PlaybackClock { paused: false, pause_instant: None, ..self }
        }
    }

    /// The clock after the stream was repositioned in place to `target`
    /// seconds at `now`. Whether it is paused does not change.
    pub open spec fn sought(self, now: Timestamp, target: u64) -> PlaybackClock {
        PlaybackClock { reference: Some(now), base_position: target, ..self }
    }

    /// A clock with nothing loaded.
    pub fn new() -> (clock: PlaybackClock)
        ensures
            clock == PlaybackClock::idle(),
    {
        PlaybackClock { reference: None, base_position: 0, paused: false, pause_instant: None }
    }

    /// Elapsed playback seconds at `now`, saturating at `u64::MAX`.
    pub fn elapsed_seconds(&self, now: Timestamp) -> (secs: u64)
        ensures
            secs == self.elapsed_at(now),
    {
        match self.reference {
            Some(start) => {
                let until: Timestamp = match self.pause_instant {
                    Some(pause) => if self.paused {
                        pause
                    } else {
                        now
                    },
                    None => now,
                };
                advance(self.base_position, start, until)
            },
            None => 0,
        }
    }

    /// Restarts the clock at `offset` seconds, running from `now`.
    pub fn start(&mut self, now: Timestamp, offset: u64)
        ensures
            *final(self) == PlaybackClock::started(now, offset),
    {
        self.reference = Some(now);
        self.base_position = offset;
        self.paused = false;
        self.pause_instant = None;
    }

    /// Records a pause at `now`.
    pub fn pause(&mut self, now: Timestamp)
        ensures
            *final(self) == old(self).paused_at(now),
    {
        self.paused = true;
        self.pause_instant = Some(now);
    }

    /// Resumes at `now`.
    pub fn resume(&mut self, now: Timestamp)
        ensures
            *final(self) == old(self).resumed_at(now),
    {
        if self.paused {
            match (self.reference, self.pause_instant) {
                (Some(start), Some(pause)) => {
                    self.base_position = advance(self.base_position, start, pause);
                    self.reference = Some(now);
                },
                _ => {},
            }
        }
        self.paused = false;
        self.pause_instant = None;
    }

    /// Records an in-place reposition to `target` seconds at `now`.
    pub fn seek(&mut self, now: Timestamp, target: u64)
        ensures
            *final(self) == old(self).sought(now, target),
    {
        self.reference = Some(now);
        self.base_position = target;
    }

    /// Forgets the loaded track.
    pub fn reset(&mut self)
        ensures
            *final(self) == PlaybackClock::idle(),
    {
        self.reference = None;
        self.base_position = 0;
        self.paused = false;
        self.pause_instant = None;
    }
}

/// Without a loaded track the position is zero, whenever it is read.
pub proof fn lemma_idle_clock_reads_zero(now: Timestamp)
    ensures
        PlaybackClock::idle().elapsed_at(now) == 0,
{
}

/// A reading is a position that a `u64` holds.
pub proof fn lemma_elapsed_in_range(clock: PlaybackClock, now: Timestamp)
    ensures
        0 <= clock.elapsed_at(now) <= u64::MAX,
{
}

/// While the clock runs, a later reading is never smaller than an earlier
/// one, and never smaller than the base position.
pub proof fn lemma_running_clock_is_monotonic(
    clock: PlaybackClock,
    earlier: Timestamp,
    later: Timestamp,
)
    requires
        clock.is_running(),
        earlier.nanos <= later.nanos,
    ensures
        clock.base_position <= clock.elapsed_at(earlier) <= clock.elapsed_at(later),
{
}

/// While the clock is frozen, every reading gives the same position.
pub proof fn lemma_frozen_clock_is_constant(clock: PlaybackClock, t1: Timestamp, t2: Timestamp)
    requires
        clock.is_frozen(),
    ensures
        clock.elapsed_at(t1) == clock.elapsed_at(t2),
{
}

/// Pausing a running clock freezes it at the position it had at the pause.
pub proof fn lemma_pause_freezes_position(
    clock: PlaybackClock,
    pause: Timestamp,
    later: Timestamp,
)
    requires
        clock.is_running(),
    ensures
        clock.paused_at(pause).is_frozen(),
        clock.paused_at(pause).elapsed_at(later) == clock.elapsed_at(pause),
{
}

/// Resuming a frozen clock makes it run again from the frozen position: read
/// at the resume instant it gives that position, and later readings are never
/// smaller.
pub proof fn lemma_resume_continues_from_frozen_position(
    clock: PlaybackClock,
    resume: Timestamp,
    later: Timestamp,
)
    requires
        clock.is_frozen(),
        resume.nanos <= later.nanos,
    ensures
        clock.resumed_at(resume).is_running(),
        clock.resumed_at(resume).elapsed_at(resume) == clock.elapsed_at(resume),
        clock.resumed_at(resume).elapsed_at(later) >= clock.elapsed_at(resume),
{
}

/// A pause followed by a resume never moves the position backwards: the
/// reading at the resume is the reading at the pause, and the clock runs.
pub proof fn lemma_pause_then_resume(
    clock: PlaybackClock,
    pause: Timestamp,
    resume: Timestamp,
)
    requires
        clock.is_running(),
    ensures
        !clock.paused_at(pause).resumed_at(resume).paused,
        clock.paused_at(pause).resumed_at(resume).elapsed_at(resume) == clock.elapsed_at(pause),
{
}

/// Right after a (re)start at `offset` the clock reads `offset`; read at a
/// later instant it reads `offset` plus the whole seconds since, so less
/// than one second later it still reads `offset`.
pub proof fn lemma_start_sets_position(now: Timestamp, offset: u64, later: Timestamp)
    requires
        now.nanos <= later.nanos,
    ensures
        PlaybackClock::started(now, offset).elapsed_at(now) == offset,
        PlaybackClock::started(now, offset).elapsed_at(later) == advanced(offset, now, later),
        later.nanos - now.nanos < NANOS_PER_SEC ==> PlaybackClock::started(
            now,
            offset,
        ).elapsed_at(later) == offset,
{
}

/// Right after an in-place reposition to `target` the clock reads `target`,
/// provided that a recorded pause is not later than the reposition. A running
/// clock read less than one second later still reads `target`.
pub proof fn lemma_seek_sets_position(
    clock: PlaybackClock,
    now: Timestamp,
    target: u64,
    later: Timestamp,
)
    requires
        clock.paused && clock.pause_instant is Some ==> clock.pause_instant->0.nanos <= now.nanos,
        now.nanos <= later.nanos,
    ensures
        clock.sought(now, target).elapsed_at(now) == target,
        clock.sought(now, target).elapsed_at(later) >= target,
        later.nanos - now.nanos < NANOS_PER_SEC ==> clock.sought(now, target).elapsed_at(later)
            == target,
{
}

} // verus!
