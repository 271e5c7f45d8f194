//! What a stream is made of: its time base, its packets, its bounded queue,
//! and the arithmetic that turns decoder ticks into milliseconds.

use vstd::prelude::*;
use std::collections::VecDeque;
use crate::config::FRAME_SLEEP_EPSILON;
use crate::config::FRAME_TIMEOUT_MAX;

verus! {

/// The length of one decoder tick in seconds, as a fraction with a positive
/// denominator.
#[derive(Clone, Copy, Debug)]
pub struct TimeBase {
    numerator: u32,
    denominator: u32,
}

impl TimeBase {
    #[verifier::type_invariant]
    spec fn valid(self) -> bool {
        self.denominator > 0
    }

    /// The fraction's numerator.
    pub closed spec fn num(self) -> nat {
        self.numerator as nat
    }

    /// The fraction's denominator.
    pub closed spec fn den(self) -> nat {
        self.denominator as nat
    }

    /// The time base `numerator / denominator`, where the numerator is not
    /// negative and the denominator is positive; `None` for any other pair.
    pub fn new(numerator: i32, denominator: i32) -> (time_base: Option<TimeBase>)
        ensures
            time_base is Some <==> numerator >= 0 && denominator > 0,
            time_base matches Some(t) ==> t.num() == numerator && t.den() == denominator,
    {
        if numerator >= 0 && denominator > 0 {
            Some(TimeBase { numerator: numerator as u32, denominator: denominator as u32 })
        } else {
            None
        }
    }

    /// The fraction's numerator.
    pub fn numerator(&self) -> (n: u32)
        ensures
            n == self.num(),
    {
        self.numerator
    }

    /// The fraction's denominator, which is never zero.
    pub fn denominator(&self) -> (d: u32)
        ensures
            d == self.den(),
            d > 0,
    {
        proof {
            use_type_invariant(self);
        }
        self.denominator
    }
}

/// Milliseconds in `count` ticks, fractions dropped; for `count >= 0`.
pub open spec fn whole_millis(count: int, time_base: TimeBase) -> int {
    (count * time_base.num() * 1000) / (time_base.den() as int)
}

/// Milliseconds in `ticks` ticks, rounded towards zero.
pub open spec fn truncated_millis(ticks: int, time_base: TimeBase) -> int {
    if ticks >= 0 {
        whole_millis(ticks, time_base)
    } else {
        -whole_millis(-ticks, time_base)
    }
}

/// `x`, moved to the nearer end of `[low, high]` where it lies outside.
pub open spec fn clamp(x: int, low: int, high: int) -> int {
    if x < low {
        low
    } else if x > high {
        high
    } else {
        x
    }
}

/// A stream length of `ticks` ticks in milliseconds: rounded towards zero
/// and kept within `i64`.
pub open spec fn duration_millis(ticks: int, time_base: TimeBase) -> int {
    clamp(truncated_millis(ticks, time_base), i64::MIN as int, i64::MAX as int)
}

/// A presentation timestamp of `pts` ticks in milliseconds: rounded towards
/// zero, never negative, and kept within `u64`.
pub open spec fn presentation_millis(pts: int, time_base: TimeBase) -> int {
    clamp(truncated_millis(pts, time_base), 0, u64::MAX as int)
}

/// When, in milliseconds after the clock's start, a frame with timestamp
/// `pts` is due once `loop_count` loops are complete: its own timestamp plus
/// one stream length for each loop. A length below zero counts as zero.
pub open spec fn effective_timestamp(
    pts: int,
    time_base: TimeBase,
    duration: int,
    loop_count: nat,
) -> int {
    presentation_millis(pts, time_base) + (if duration > 0 { duration } else { 0 }) * loop_count
}

/// How long to wait at `now` for a frame that is due `due` milliseconds after
/// `start_time`: `None` where the frame is due within the tolerance, else the
/// time left, at least the minimum delay and at most `u64::MAX`.
pub open spec fn wait_before(start_time: int, due: int, now: int) -> Option<u64> {
    let left = start_time + due - now;
    if left > FRAME_SLEEP_EPSILON {
        Some(clamp(left, FRAME_TIMEOUT_MAX as int, u64::MAX as int) as u64)
    } else {
        None
    }
}

/// Ticks that are not negative make milliseconds that are not negative.
pub proof fn lemma_whole_millis_not_negative(count: int, time_base: TimeBase)
    requires
        count >= 0,
        time_base.den() > 0,
    ensures
        whole_millis(count, time_base) >= 0,
{
    let scaled = count * time_base.num() * 1000;
    let d = time_base.den() as int;
    assert(scaled >= 0) by (nonlinear_arith)
        requires
            scaled == count * time_base.num() * 1000,
            count >= 0,
    ;
    assert(scaled / d >= 0) by (nonlinear_arith)
        requires
            scaled >= 0,
            d > 0,
    ;
}

fn count_millis(count: u64, time_base: &TimeBase) -> (millis: u128)
    ensures
        millis == whole_millis(count as int, *time_base),
        millis <= 0xffff_ffff_ffff_ffff * 0xffff_ffff * 1000,
{
    let n: u32 = time_base.numerator();
    let d: u32 = time_base.denominator();
    let a: u128 = count as u128;
    let b: u128 = n as u128;
    assert(0 <= a * b <= 0xffff_ffff_ffff_ffff * 0xffff_ffff) by (nonlinear_arith)
        requires
            0 <= a <= 0xffff_ffff_ffff_ffff,
            0 <= b <= 0xffff_ffff,
    ;
    let scaled: u128 = a * b * 1000;
    let millis: u128 = scaled / (d as u128);
    assert(millis <= scaled) by (nonlinear_arith)
        requires
            millis == scaled / (d as u128),
            d > 0,
    ;
    millis
}

/// A stream length of `ticks` ticks in milliseconds.
pub fn ticks_to_millis(ticks: i64, time_base: &TimeBase) -> (millis: i64)
    ensures
        millis == duration_millis(ticks as int, *time_base),
{
    if ticks >= 0 {
        let m: u128 = count_millis(ticks as u64, time_base);
        if m > i64::MAX as u128 {
            i64::MAX
        } else {
            m as i64
        }
    } else {
        let magnitude: u64 = (-(ticks as i128)) as u64;
        let m: u128 = count_millis(magnitude, time_base);
        if m > i64::MAX as u128 {
            i64::MIN
        } else {
            -(m as i64)
        }
    }
}

/// A presentation timestamp of `pts` ticks in milliseconds.
pub fn pts_to_millis(pts: i64, time_base: &TimeBase) -> (millis: u64)
    ensures
        millis == presentation_millis(pts as int, *time_base),
{
    if pts >= 0 {
        let m: u128 = count_millis(pts as u64, time_base);
        if m > u64::MAX as u128 {
            u64::MAX
        } else {
            m as u64
        }
    } else {
        proof {
            use_type_invariant(time_base);
            lemma_whole_millis_not_negative(-pts, *time_base);
        }
        0
    }
}

/// When a frame is due, in milliseconds after the clock's start.
pub fn frame_due(pts: i64, time_base: &TimeBase, duration: i64, loop_count: u32) -> (due: u128)
    ensures
        due == effective_timestamp(pts as int, *time_base, duration as int, loop_count as nat),
        due <= 0xffff_ffff_ffff_ffff + 0x7fff_ffff_ffff_ffff * 0xffff_ffff,
{
    let own: u128 = pts_to_millis(pts, time_base) as u128;
    let length: u128 = if duration > 0 { duration as u128 } else { 0 };
    let loops: u128 = loop_count as u128;
    assert(0 <= length * loops <= 0x7fff_ffff_ffff_ffff * 0xffff_ffff) by (nonlinear_arith)
        requires
            0 <= length <= 0x7fff_ffff_ffff_ffff,
            0 <= loops <= 0xffff_ffff,
    ;
    own + length * loops
}

/// How long to wait at `now` before a frame that is due `due` milliseconds
/// after `start_time` is shown, or `None` where it is to be shown at once.
pub fn frame_wait(start_time: u64, due: u128, now: u64) -> (wait: Option<u64>)
    ensures
        wait == wait_before(start_time as int, due as int, now as int),
{
    let at: u128 = now as u128;
    match (start_time as u128).checked_add(due) {
        None => Some(u64::MAX),
        Some(display) => {
            if display > at && display - at > FRAME_SLEEP_EPSILON as u128 {
                let left: u128 = display - at;
                if left > u64::MAX as u128 {
                    Some(u64::MAX)
                } else if left < FRAME_TIMEOUT_MAX as u128 {
                    Some(FRAME_TIMEOUT_MAX)
                } else {
                    Some(left as u64)
                }
            } else {
                None
            }
        },
    }
}

/// A frame's due time is its own timestamp in milliseconds plus one stream
/// length per completed loop, wherever the timestamp is not negative, the
/// length is not negative and the timestamp's milliseconds fit in `u64`.
pub proof fn lemma_effective_timestamp(
    pts: int,
    time_base: TimeBase,
    duration: int,
    loop_count: nat,
)
    requires
        time_base.den() > 0,
        pts >= 0,
        duration >= 0,
        (pts * time_base.num() * 1000) / (time_base.den() as int) <= u64::MAX,
    ensures
        effective_timestamp(pts, time_base, duration, loop_count) == (pts * time_base.num() * 1000)
            / (time_base.den() as int) + loop_count * duration,
{
    lemma_whole_millis_not_negative(pts, time_base);
    assert(duration * loop_count == loop_count * duration) by (nonlinear_arith);
}

/// One still-encoded chunk of a stream: a payload that this library never
/// looks into, and the number of bytes the payload holds.
#[derive(Debug, PartialEq)]
pub struct Packet<P> {
    pub payload: P,
    pub size: usize,
}

/// An entry of a packet queue.
#[derive(Debug, PartialEq)]
pub enum PacketData<P> {
    /// A packet, with the number of loops that were complete when it was read.
    Packet(Packet<P>, u32),
    /// The decoder is to drop what it holds before it sees any later entry.
    Flush,
}

/// What is known of one stream, and the packets that wait for its decoder.
pub struct StreamData<P> {
    /// The stream's index in its container.
    pub stream_index: usize,
    /// The length of one tick of the stream's timestamps.
    pub time_base: TimeBase,
    /// The stream's length in milliseconds.
    pub duration: i64,
    /// Packets and flush markers, oldest first.
    pub packet_queue: VecDeque<PacketData<P>>,
}

/// A stream's state as plain values: the queue is the sequence of its
/// entries, oldest first.
#[verifier::ext_equal]
pub struct StreamModel<P> {
    pub stream_index: usize,
    pub time_base: TimeBase,
    pub duration: i64,
    pub queue: Seq<PacketData<P>>,
}

impl<P> View for StreamData<P> {
    type V = StreamModel<P>;

    open spec fn view(&self) -> StreamModel<P> {
        StreamModel {
            stream_index: self.stream_index,
            time_base: self.time_base,
            duration: self.duration,
            queue: self.packet_queue@,
        }
    }
}

impl<P> StreamData<P> {
    /// The state of a stream with the given index, time base and length in
    /// ticks, and with nothing queued.
    pub fn new(stream_index: usize, time_base: TimeBase, duration_ticks: i64) -> (stream: Self)
        ensures
            stream.stream_index == stream_index,
            stream.time_base == time_base,
            stream.duration == duration_millis(duration_ticks as int, time_base),
            stream.packet_queue@ == Seq::<PacketData<P>>::empty(),
    {
        let duration: i64 = ticks_to_millis(duration_ticks, &time_base);
        StreamData { stream_index, time_base, duration, packet_queue: VecDeque::new() }
    }
}

} // verus!
