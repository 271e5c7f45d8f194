//! The presentation clock that the fetcher and both workers follow.
//!
//! Instants are whole milliseconds counted from the moment the clock was made.
//! Every operation exists twice: once taking the instant as an argument, with
//! an exact contract, and once reading the machine's monotonic clock itself.

use vstd::prelude::*;
use std::time::Duration;
use std::time::Instant;

verus! {

#[verifier::external_type_specification]
#[verifier::external_body]
pub struct ExInstant(Instant);

/// `Instant::now`: some instant of the monotonic clock. Nothing is claimed of it.
#[verifier::external_body]
fn instant_now() -> (origin: Instant) {
    Instant::now()
}

/// `Instant::elapsed`: the time that went by since `origin`. Nothing is
/// claimed of it.
#[verifier::external_body]
fn instant_elapsed(origin: &Instant) -> (elapsed: Duration) {
    origin.elapsed()
}

/// `Duration::as_millis`: the whole milliseconds in `elapsed`. Nothing is
/// claimed of the number.
#[verifier::external_body]
fn duration_as_millis(elapsed: &Duration) -> (millis: u128) {
    elapsed.as_millis()
}

/// The shared clock: when playback started, whether and since when it is
/// paused, whether it loops, and how long the stream is.
pub struct TimeData {
    /// The instant from which this clock counts its milliseconds.
    pub origin: Instant,
    /// The instant at which position zero was, or will be, shown.
    pub start_time: u64,
    /// The instant of the pause that is in force, if playback is paused.
    pub paused: Option<u64>,
    /// Whether the position wraps round at `duration`.
    pub looping: bool,
    /// Length of the stream in milliseconds; zero or less while unknown.
    pub duration: i64,
}

impl TimeData {
    /// The instant that counts: the pause instant while paused, else `now`.
    pub open spec fn effective_now(&self, now: u64) -> u64 {
        match self.paused {
            Some(p) => p,
            None => now,
        }
    }

    /// Milliseconds played at `now`, before any wrapping.
    pub open spec fn elapsed_spec(&self, now: u64) -> int {
        let t = self.effective_now(now);
        if t <= self.start_time {
            0
        } else {
            t - self.start_time
        }
    }

    /// Whether the position wraps: looping is on and the length is known.
    pub open spec fn wraps(&self) -> bool {
        self.looping && self.duration > 0
    }

    /// The position at `now`: the milliseconds played, capped at `i64::MAX`,
    /// and taken modulo the length where the clock wraps.
    pub open spec fn position_spec(&self, now: u64) -> int {
        let e = self.elapsed_spec(now);
        let capped = if e > i64::MAX { i64::MAX as int } else { e };
        if self.wraps() {
            capped % (self.duration as int)
        } else {
            capped
        }
    }

    /// The clock after `pause_at(now)`.
    pub open spec fn paused_at(self, now: u64) -> TimeData {
        match self.paused {
            Some(_) => self,
            None => TimeData { paused: Some(now), ..self },
        }
    }

    /// The clock after `play_at(now)`: the start moves forward by the length
    /// of the pause, and stops at `u64::MAX`.
    pub open spec fn resumed_at(self, now: u64) -> TimeData {
        match self.paused {
            None => self,
            Some(p) => {
                let gap = if now >= p { now - p } else { 0 };
                let moved = self.start_time + gap;
                let start = if moved > u64::MAX { u64::MAX } else { moved as u64 };
                TimeData { start_time: start, paused: None, ..self }
            },
        }
    }

    /// `now` is not earlier than any instant the clock has recorded, and a
    /// pause did not begin before the start.
    pub open spec fn admits(&self, now: u64) -> bool {
        &&& self.start_time <= now
        &&& self.paused matches Some(p) ==> self.start_time <= p && p <= now
    }

    /// A clock that starts now, plays, does not loop and knows no length yet.
    pub fn new() -> (clock: TimeData)
        ensures
            clock.start_time == 0,
            clock.paused is None,
            !clock.looping,
            clock.duration == 0,
    {
        TimeData { origin: instant_now(), start_time: 0, paused: None, looping: false, duration: 0 }
    }

    /// Milliseconds since the clock was made, capped at `u64::MAX`. The value
    /// comes from the machine's clock, so nothing is promised of it.
    pub fn now(&self) -> (now: u64) {
        let elapsed = instant_elapsed(&self.origin);
        let millis: u128 = duration_as_millis(&elapsed);
        if millis > u64::MAX as u128 {
            u64::MAX
        } else {
            millis as u64
        }
    }

    /// Whether playback is paused.
    pub fn is_paused(&self) -> (b: bool)
        ensures
            b == (self.paused is Some),
    {
        self.paused.is_some()
    }

    /// Pauses at `now`. A clock that is paused already keeps its first pause.
    pub fn pause_at(&mut self, now: u64)
        ensures
            *final(self) == old(self).paused_at(now),
    {
        if self.paused.is_none() {
            self.paused = Some(now);
        }
    }

    /// Resumes at `now`. A clock that is playing is left alone; otherwise the
    /// start moves forward by the time spent paused, so that the position goes
    /// on from where it stood.
    pub fn play_at(&mut self, now: u64)
        ensures
            *final(self) == old(self).resumed_at(now),
    {
        match self.paused {
            None => {},
            Some(p) => {
                let gap: u64 = if now >= p { now - p } else { 0 };
                self.start_time = self.start_time.saturating_add(gap);
                self.paused = None;
            },
        }
    }

    /// Pauses at the instant the machine's clock shows.
    pub fn pause(&mut self)
        ensures
            exists|now: u64| *final(self) == old(self).paused_at(now),
            old(self).paused is Some ==> *final(self) == *old(self),
    {
        let now: u64 = self.now();
        self.pause_at(now);
    }

    /// Resumes at the instant the machine's clock shows.
    pub fn play(&mut self)
        ensures
            exists|now: u64| *final(self) == old(self).resumed_at(now),
            old(self).paused is None ==> *final(self) == *old(self),
    {
        let now: u64 = self.now();
        self.play_at(now);
    }

    /// Switches wrapping at the end of the stream on or off.
    pub fn set_looping(&mut self, looping: bool)
        ensures
            *final(self) == (TimeData { looping, ..*old(self) }),
    {
        self.looping = looping;
    }

    /// Records the length of the stream, in milliseconds.
    pub fn set_duration(&mut self, duration: i64)
        ensures
            *final(self) == (TimeData { duration, ..*old(self) }),
    {
        self.duration = duration;
    }

    /// The position at `now`, in milliseconds.
    pub fn position_at(&self, now: u64) -> (position: i64)
        ensures
            position == self.position_spec(now),
    {
        let t: u64 = match self.paused {
            Some(p) => p,
            None => now,
        };
        if t <= self.start_time {
            proof {
                if self.wraps() {
                    assert(0int % (self.duration as int) == 0);
                }
            }
            0
        } else {
            let e: u64 = t - self.start_time;
            let capped: i64 = if e > i64::MAX as u64 { i64::MAX } else { e as i64 };
            if self.looping && self.duration > 0 {
                capped % self.duration
            } else {
                capped
            }
        }
    }

    /// The position at the instant the machine's clock shows. While paused
    /// the instant does not matter.
    pub fn position(&self) -> (position: i64)
        ensures
            exists|now: u64| position == self.position_spec(now),
            self.paused is Some ==> position == self.position_spec(0),
    {
        let now: u64 = self.now();
        self.position_at(now)
    }
}

/// While the clock is paused the position is the same at every instant.
pub proof fn lemma_position_constant_while_paused(clock: TimeData, t1: u64, t2: u64)
    requires
        clock.paused is Some,
    ensures
        clock.position_spec(t1) == clock.position_spec(t2),
{
}

/// While the clock plays, the milliseconds played never go down as time goes
/// on, and neither does the position of a clock that does not wrap.
pub proof fn lemma_position_monotonic_while_playing(clock: TimeData, t1: u64, t2: u64)
    requires
        clock.paused is None,
        t1 <= t2,
    ensures
        clock.elapsed_spec(t1) <= clock.elapsed_spec(t2),
        !clock.wraps() ==> clock.position_spec(t1) <= clock.position_spec(t2),
{
}

/// Where the clock wraps, the position lies in `[0, duration)`.
pub proof fn lemma_position_in_range_when_looping(clock: TimeData, now: u64)
    requires
        clock.wraps(),
    ensures
        0 <= clock.position_spec(now) < clock.duration,
{
}

/// Pausing does not move the position: at the instant of the pause, and at
/// every later one, it is what it was at the pause.
pub proof fn lemma_pause_keeps_position(clock: TimeData, now: u64, later: u64)
    ensures
        clock.paused_at(now).position_spec(later) == clock.position_spec(now),
{
}

/// Resuming does not move the position: at the instant of `play` it is what
/// it was while paused, however long the pause lasted.
pub proof fn lemma_resume_is_continuous(clock: TimeData, now: u64)
    requires
        clock.admits(now),
    ensures
        clock.resumed_at(now).position_spec(now) == clock.position_spec(now),
        clock.resumed_at(now).admits(now),
        clock.paused_at(now).admits(now),
{
}

/// A call that moves a clock between playing and paused.
#[derive(Clone, Copy, Debug, PartialEq, Eq, Structural)]
pub enum ClockCall {
    Pause,
    Play,
}

/// The clock after one call at `now`.
pub open spec fn after_call(clock: TimeData, call: ClockCall, now: u64) -> TimeData {
    match call {
        ClockCall::Pause => clock.paused_at(now),
        ClockCall::Play => clock.resumed_at(now),
    }
}

/// The clock after a run of calls, each with its instant, in the order given.
pub open spec fn after_calls(clock: TimeData, calls: Seq<(ClockCall, u64)>) -> TimeData
    decreases calls.len(),
{
    if calls.len() == 0 {
        clock
    } else {
        after_call(after_calls(clock, calls.drop_last()), calls.last().0, calls.last().1)
    }
}

/// The instants of `calls` never go back, and all lie between `start` and
/// `end`.
pub open spec fn in_order(start: u64, calls: Seq<(ClockCall, u64)>, end: u64) -> bool {
    &&& forall|i: int| 0 <= i < calls.len() ==> start <= (#[trigger] calls[i]).1 <= end
    &&& forall|i: int, j: int|
        0 <= i <= j < calls.len() ==> (#[trigger] calls[i]).1 <= (#[trigger] calls[j]).1
}

/// The milliseconds between `start` and `end` during which a clock that
/// receives `calls` is playing.
pub open spec fn time_played(
    clock: TimeData,
    start: u64,
    calls: Seq<(ClockCall, u64)>,
    end: u64,
) -> int
    decreases calls.len(),
{
    if calls.len() == 0 {
        if clock.paused is Some {
            0
        } else {
            end - start
        }
    } else {
        let at = calls.last().1;
        time_played(clock, start, calls.drop_last(), at) + (if after_calls(clock, calls).paused
            is Some {
            0
        } else {
            end - at
        })
    }
}

/// The time played is never negative, and it is zero where the clock is
/// paused at the start and no call is `Play`.
pub proof fn lemma_time_played(clock: TimeData, start: u64, calls: Seq<(ClockCall, u64)>, end: u64)
    requires
        start <= end,
        in_order(start, calls, end),
    ensures
        time_played(clock, start, calls, end) >= 0,
        clock.paused is Some && (forall|i: int|
            0 <= i < calls.len() ==> (#[trigger] calls[i]).0 == ClockCall::Pause) ==> {
            &&& after_calls(clock, calls).paused is Some
            &&& time_played(clock, start, calls, end) == 0
        },
    decreases calls.len(),
{
    if calls.len() > 0 {
        let before = calls.drop_last();
        let at = calls.last().1;
        assert forall|i: int| 0 <= i < before.len() implies start <= (#[trigger] before[i]).1
            <= at by {
            assert(before[i] == calls[i]);
        }
        assert forall|i: int, j: int| 0 <= i <= j < before.len() implies (#[trigger] before[i]).1
            <= (#[trigger] before[j]).1 by {
            assert(before[i] == calls[i]);
            assert(before[j] == calls[j]);
        }
        lemma_time_played(clock, start, before, at);
        if clock.paused is Some && (forall|i: int|
            0 <= i < calls.len() ==> (#[trigger] calls[i]).0 == ClockCall::Pause) {
            assert forall|i: int| 0 <= i < before.len() implies (#[trigger] before[i]).0
                == ClockCall::Pause by {
                assert(before[i] == calls[i]);
            }
        }
    }
}

/// For every run of `pause` and `play` calls whose instants never go back:
/// the milliseconds played go up by exactly the time during which the clock
/// was playing. So they never go down, they stand still for as long as the
/// clock is paused, and neither a pause nor a resume makes them jump.
pub proof fn lemma_position_follows_playing_time(
    clock: TimeData,
    start: u64,
    calls: Seq<(ClockCall, u64)>,
    end: u64,
)
    requires
        clock.admits(start),
        start <= end,
        in_order(start, calls, end),
    ensures
        after_calls(clock, calls).admits(end),
        after_calls(clock, calls).elapsed_spec(end) == clock.elapsed_spec(start) + time_played(
            clock,
            start,
            calls,
            end,
        ),
        after_calls(clock, calls).elapsed_spec(end) >= clock.elapsed_spec(start),
        after_calls(clock, calls).looping == clock.looping,
        after_calls(clock, calls).duration == clock.duration,
        !clock.wraps() ==> after_calls(clock, calls).position_spec(end) >= clock.position_spec(
            start,
        ),
    decreases calls.len(),
{
    lemma_time_played(clock, start, calls, end);
    if calls.len() > 0 {
        let before = calls.drop_last();
        let at = calls.last().1;
        assert forall|i: int| 0 <= i < before.len() implies start <= (#[trigger] before[i]).1
            <= at by {
            assert(before[i] == calls[i]);
        }
        assert forall|i: int, j: int| 0 <= i <= j < before.len() implies (#[trigger] before[i]).1
            <= (#[trigger] before[j]).1 by {
            assert(before[i] == calls[i]);
            assert(before[j] == calls[j]);
        }
        lemma_position_follows_playing_time(clock, start, before, at);
    }
}

} // verus!
