//! The video worker: from queue entry to decoded picture, to scaled picture,
//! to the moment the picture is due.
//!
//! The worker is a transition function. The caller tells it what happened
//! (`VideoEvent`), it changes its state and answers with what to do next
//! (`VideoAction`): flush or run the decoder, run the scaler, draw, or end the
//! iteration. An event that does not answer the last action ends the loop.

use vstd::prelude::*;
use crate::clock::TimeData;
use crate::config::LoopState;
use crate::config::NO_PACKET_SLEEP;
use crate::config::NO_TEXTURE_SLEEP;
use crate::config::PAUSE_SLEEP;
use crate::frame::PixelFormat;
use crate::frame::VideoFrame;
use crate::stream::effective_timestamp;
use crate::stream::frame_due;
use crate::stream::frame_wait;
use crate::stream::wait_before;
use crate::stream::Packet;
use crate::stream::PacketData;
use crate::stream::StreamData;
use crate::stream::StreamModel;

verus! {

/// What a scaler was built for: the pictures it takes and the size it makes.
#[derive(Clone, Copy, Debug, PartialEq, Eq, Structural)]
pub struct ScalerShape {
    pub in_format: PixelFormat,
    pub in_width: u32,
    pub in_height: u32,
    pub out_width: u32,
    pub out_height: u32,
}

/// Which answer the video worker waits for.
#[derive(Clone, Copy, Debug, PartialEq, Eq, Structural)]
pub enum VideoPhase {
    /// None: the next iteration may begin.
    Idle,
    /// That the decoder was flushed.
    Flushing,
    /// What the decoder made of a packet of the given loop.
    Decoding { loop_count: u32 },
    /// The scaled picture of a frame of the given loop and timestamp.
    Scaling { loop_count: u32, pts: Option<i64> },
    /// Whether the picture reached the render surface.
    Presenting,
}

/// What the caller reports to the video worker.
#[derive(Debug, PartialEq)]
pub enum VideoEvent<F> {
    /// An iteration begins.
    Tick,
    /// The decoder has dropped what it held.
    Flushed,
    /// The decoder took the packet and left this frame, which has no format
    /// where the packet did not complete a picture.
    Decoded(VideoFrame<F>),
    /// The decoder refused the packet.
    DecodeFailed,
    /// The scaler made this picture.
    Scaled(VideoFrame<F>),
    /// The scaler could not be built or run.
    ScaleFailed,
    /// The picture was handed to the render surface, or could not be.
    Presented(bool),
}

/// What the video worker asks of the caller.
#[derive(Debug, PartialEq)]
#[allow(inconsistent_fields)]
pub enum VideoAction<P, F> {
    /// Flush the decoder, then report `Flushed`.
    FlushDecoder,
    /// Decode this packet, then report `Decoded` or `DecodeFailed`.
    Decode(Packet<P>),
    /// Scale `frame` to `width` by `height` in the pixel format `format`, with
    /// a new scaler if `rebuild` says so, then report `Scaled` or
    /// `ScaleFailed`.
    Scale { frame: VideoFrame<F>, width: u32, height: u32, format: PixelFormat, rebuild: bool },
    /// Hand this picture to the render surface, then report `Presented`.
    Present(VideoFrame<F>),
    /// The iteration is over.
    Done(LoopState),
}

/// State of the video worker.
pub struct VideoStreamData<P, F> {
    pub stream: StreamData<P>,
    /// Width of the stream's pictures, once one was decoded.
    pub width: Option<u32>,
    /// Height of the stream's pictures, once one was decoded.
    pub height: Option<u32>,
    /// A decoded picture that waits for the render surface to have a size,
    /// with its loop.
    pub source_frame: Option<(VideoFrame<F>, u32)>,
    /// A scaled picture that is not due yet, with its loop.
    pub scaled_frame: Option<(VideoFrame<F>, u32)>,
    /// What the scaler in use was built for.
    pub scaler: Option<ScalerShape>,
    pub phase: VideoPhase,
}

/// The video worker's state as plain values.
#[verifier::ext_equal]
pub struct VideoModel<P, F> {
    pub stream: StreamModel<P>,
    pub width: Option<u32>,
    pub height: Option<u32>,
    pub source_frame: Option<(VideoFrame<F>, u32)>,
    pub scaled_frame: Option<(VideoFrame<F>, u32)>,
    pub scaler: Option<ScalerShape>,
    pub phase: VideoPhase,
}

impl<P, F> View for VideoStreamData<P, F> {
    type V = VideoModel<P, F>;

    open spec fn view(&self) -> VideoModel<P, F> {
        VideoModel {
            stream: self.stream@,
            width: self.width,
            height: self.height,
            source_frame: self.source_frame,
            scaled_frame: self.scaled_frame,
            scaler: self.scaler,
            phase: self.phase,
        }
    }
}

/// Takes the oldest queue entry. With none there, the iteration ends in a
/// short sleep; a flush marker goes to the decoder as a flush, a packet as a
/// packet, and its loop is remembered.
pub open spec fn next_entry<P, F>(m: VideoModel<P, F>) -> (VideoModel<P, F>, VideoAction<P, F>) {
    if m.stream.queue.len() == 0 {
        (
            VideoModel { phase: VideoPhase::Idle, ..m },
            VideoAction::Done(LoopState::Sleep(NO_PACKET_SLEEP)),
        )
    } else {
        let stream = StreamModel { queue: m.stream.queue.skip(1), ..m.stream };
        match m.stream.queue[0] {
            PacketData::Flush => (
                VideoModel { stream, phase: VideoPhase::Flushing, ..m },
                VideoAction::FlushDecoder,
            ),
            PacketData::Packet(packet, loop_count) => (
                VideoModel { stream, phase: VideoPhase::Decoding { loop_count }, ..m },
                VideoAction::Decode(packet),
            ),
        }
    }
}

/// Receives a decoded picture. Its size becomes the stream's size if none is
/// known yet. While the render surface has no size the picture is kept and
/// the iteration ends in a sleep; else the picture goes to the scaler, which
/// is rebuilt unless it was built for just these pictures and this size.
pub open spec fn receive_frame<P, F>(
    m: VideoModel<P, F>,
    frame: VideoFrame<F>,
    loop_count: u32,
    surface: Option<(u32, u32)>,
) -> (VideoModel<P, F>, VideoAction<P, F>) {
    let sized = VideoModel {
        width: if m.width is None { Some(frame.width) } else { m.width },
        height: if m.height is None { Some(frame.height) } else { m.height },
        ..m
    };
    match surface {
        None => (
            VideoModel { source_frame: Some((frame, loop_count)), phase: VideoPhase::Idle, ..sized },
            VideoAction::Done(LoopState::Sleep(NO_TEXTURE_SLEEP)),
        ),
        Some((width, height)) => {
            let shape = ScalerShape {
                in_format: frame.format,
                in_width: frame.width,
                in_height: frame.height,
                out_width: width,
                out_height: height,
            };
            (
                VideoModel {
                    scaler: Some(shape),
                    phase: VideoPhase::Scaling { loop_count, pts: frame.pts },
                    ..sized
                },
                VideoAction::Scale {
                    frame,
                    width,
                    height,
                    format: PixelFormat::Rgba,
                    rebuild: m.scaler != Some(shape),
                },
            )
        },
    }
}

/// Decides what becomes of a scaled picture at `now`. While the clock is
/// paused, or the picture is not due within the tolerance, it is kept and the
/// iteration ends in a sleep; a picture without a timestamp ends the loop; a
/// picture that is due goes to the render surface.
pub open spec fn schedule<P, F>(
    m: VideoModel<P, F>,
    frame: VideoFrame<F>,
    loop_count: u32,
    clock: TimeData,
    now: u64,
) -> (VideoModel<P, F>, VideoAction<P, F>) {
    if clock.paused is Some {
        (
            VideoModel { scaled_frame: Some((frame, loop_count)), phase: VideoPhase::Idle, ..m },
            VideoAction::Done(LoopState::Sleep(PAUSE_SLEEP)),
        )
    } else {
        match frame.pts {
            None => (VideoModel { phase: VideoPhase::Idle, ..m }, VideoAction::Done(LoopState::Exit)),
            Some(pts) => {
                let due = effective_timestamp(
                    pts as int,
                    m.stream.time_base,
                    m.stream.duration as int,
                    loop_count as nat,
                );
                match wait_before(clock.start_time as int, due, now as int) {
                    Some(millis) => (
                        VideoModel {
                            scaled_frame: Some((frame, loop_count)),
                            phase: VideoPhase::Idle,
                            ..m
                        },
                        VideoAction::Done(LoopState::Sleep(millis)),
                    ),
                    None => (
                        VideoModel { phase: VideoPhase::Presenting, ..m },
                        VideoAction::Present(frame),
                    ),
                }
            },
        }
    }
}

/// One step of the video worker: the state after `event`, and the answer.
///
/// An iteration begins with a kept scaled picture if there is one, else with
/// a kept decoded picture, else with the queue. A decoded frame without a
/// format means that the packet completed no picture: the next entry is
/// taken. A scaled picture gets the timestamp of the picture it was made
/// from. Where the event is not the answer that the state waits for, nothing
/// changes and the loop ends.
pub open spec fn video_step<P, F>(
    m: VideoModel<P, F>,
    event: VideoEvent<F>,
    clock: TimeData,
    now: u64,
    surface: Option<(u32, u32)>,
) -> (VideoModel<P, F>, VideoAction<P, F>) {
    match (m.phase, event) {
        (VideoPhase::Idle, VideoEvent::Tick) => match m.scaled_frame {
            Some((frame, loop_count)) => schedule(
                VideoModel { scaled_frame: None, ..m },
                frame,
                loop_count,
                clock,
                now,
            ),
            None => match m.source_frame {
                Some((frame, loop_count)) => receive_frame(
                    VideoModel { source_frame: None, ..m },
                    frame,
                    loop_count,
                    surface,
                ),
                None => next_entry(m),
            },
        },
        (VideoPhase::Flushing, VideoEvent::Flushed) => next_entry(m),
        (VideoPhase::Decoding { loop_count }, VideoEvent::Decoded(frame)) => {
            if frame.format == PixelFormat::Missing {
                next_entry(m)
            } else {
                receive_frame(m, frame, loop_count, surface)
            }
        },
        (VideoPhase::Decoding { .. }, VideoEvent::DecodeFailed) => (
            VideoModel { phase: VideoPhase::Idle, ..m },
            VideoAction::Done(LoopState::Exit),
        ),
        (VideoPhase::Scaling { loop_count, pts }, VideoEvent::Scaled(frame)) => schedule(
            m,
            VideoFrame { pts, ..frame },
            loop_count,
            clock,
            now,
        ),
        (VideoPhase::Scaling { .. }, VideoEvent::ScaleFailed) => (
            VideoModel { phase: VideoPhase::Idle, ..m },
            VideoAction::Done(LoopState::Exit),
        ),
        (VideoPhase::Presenting, VideoEvent::Presented(shown)) => (
            VideoModel { phase: VideoPhase::Idle, ..m },
            VideoAction::Done(if shown { LoopState::Running } else { LoopState::Exit }),
        ),
        _ => (m, VideoAction::Done(LoopState::Exit)),
    }
}

impl<P, F> VideoStreamData<P, F> {
    /// The state of a video worker that has done nothing yet.
    pub fn new(stream: StreamData<P>) -> (video: Self)
        ensures
            video.stream == stream,
            video.width is None,
            video.height is None,
            video.source_frame is None,
            video.scaled_frame is None,
            video.scaler is None,
            video.phase == VideoPhase::Idle,
    {
        VideoStreamData {
            stream,
            width: None,
            height: None,
            source_frame: None,
            scaled_frame: None,
            scaler: None,
            phase: VideoPhase::Idle,
        }
    }
}

/// Takes the oldest entry of the video queue and says what the decoder is to
/// do with it.
pub fn get_source_frame<P, F>(video: &mut VideoStreamData<P, F>) -> (action: VideoAction<P, F>)
    ensures
        (final(video)@, action) == next_entry(old(video)@),
{
    match video.stream.packet_queue.pop_front() {
        None => {
            video.phase = VideoPhase::Idle;
            VideoAction::Done(LoopState::Sleep(NO_PACKET_SLEEP))
        },
        Some(PacketData::Flush) => {
            video.phase = VideoPhase::Flushing;
            assert(final(video)@ =~= next_entry(old(video)@).0);
            VideoAction::FlushDecoder
        },
        Some(PacketData::Packet(packet, loop_count)) => {
            video.phase = VideoPhase::Decoding { loop_count };
            assert(final(video)@ =~= next_entry(old(video)@).0);
            VideoAction::Decode(packet)
        },
    }
}

/// Receives a decoded picture and says whether and how it is to be scaled.
pub fn scale_source_frame<P, F>(
    video: &mut VideoStreamData<P, F>,
    source_frame: VideoFrame<F>,
    loop_count: u32,
    surface: Option<(u32, u32)>,
) -> (action: VideoAction<P, F>)
    ensures
        (final(video)@, action) == receive_frame(old(video)@, source_frame, loop_count, surface),
{
    if video.width.is_none() {
        video.width = Some(source_frame.width);
    }
    if video.height.is_none() {
        video.height = Some(source_frame.height);
    }
    match surface {
        None => {
            video.source_frame = Some((source_frame, loop_count));
            video.phase = VideoPhase::Idle;
            VideoAction::Done(LoopState::Sleep(NO_TEXTURE_SLEEP))
        },
        Some((width, height)) => {
            let shape = ScalerShape {
                in_format: source_frame.format,
                in_width: source_frame.width,
                in_height: source_frame.height,
                out_width: width,
                out_height: height,
            };
            let rebuild = match video.scaler {
                Some(built) => built != shape,
                None => true,
            };
            video.scaler = Some(shape);
            video.phase = VideoPhase::Scaling { loop_count, pts: source_frame.pts };
            VideoAction::Scale {
                frame: source_frame,
                width,
                height,
                format: PixelFormat::Rgba,
                rebuild,
            }
        },
    }
}

/// Decides at `now` whether a scaled picture is drawn, kept or given up.
pub fn schedule_frame<P, F>(
    video: &mut VideoStreamData<P, F>,
    scaled_frame: VideoFrame<F>,
    loop_count: u32,
    clock: &TimeData,
    now: u64,
) -> (action: VideoAction<P, F>)
    ensures
        (final(video)@, action) == schedule(old(video)@, scaled_frame, loop_count, *clock, now),
{
    if clock.is_paused() {
        video.scaled_frame = Some((scaled_frame, loop_count));
        video.phase = VideoPhase::Idle;
        return VideoAction::Done(LoopState::Sleep(PAUSE_SLEEP));
    }
    match scaled_frame.pts {
        None => {
            video.phase = VideoPhase::Idle;
            VideoAction::Done(LoopState::Exit)
        },
        Some(pts) => {
            let due: u128 = frame_due(pts, &video.stream.time_base, video.stream.duration, loop_count);
            match frame_wait(clock.start_time, due, now) {
                Some(millis) => {
                    video.scaled_frame = Some((scaled_frame, loop_count));
                    video.phase = VideoPhase::Idle;
                    VideoAction::Done(LoopState::Sleep(millis))
                },
                None => {
                    video.phase = VideoPhase::Presenting;
                    VideoAction::Present(scaled_frame)
                },
            }
        },
    }
}

/// One step of the video worker. `clock` is the shared clock, `now` the
/// instant on that clock, and `surface` the size of the render surface, if
/// it has one.
pub fn play_video<P, F>(
    video: &mut VideoStreamData<P, F>,
    event: VideoEvent<F>,
    clock: &TimeData,
    now: u64,
    surface: Option<(u32, u32)>,
) -> (action: VideoAction<P, F>)
    ensures
        (final(video)@, action) == video_step(old(video)@, event, *clock, now, surface),
{
    match (video.phase, event) {
        (VideoPhase::Idle, VideoEvent::Tick) => {
            match video.scaled_frame.take() {
                Some((frame, loop_count)) => schedule_frame(video, frame, loop_count, clock, now),
                None => match video.source_frame.take() {
                    Some((frame, loop_count)) => scale_source_frame(
                        video,
                        frame,
                        loop_count,
                        surface,
                    ),
                    None => get_source_frame(video),
                },
            }
        },
        (VideoPhase::Flushing, VideoEvent::Flushed) => get_source_frame(video),
        (VideoPhase::Decoding { loop_count }, VideoEvent::Decoded(frame)) => {
            if frame.format == PixelFormat::Missing {
                get_source_frame(video)
            } else {
                scale_source_frame(video, frame, loop_count, surface)
            }
        },
        (VideoPhase::Decoding { .. }, VideoEvent::DecodeFailed) => {
            video.phase = VideoPhase::Idle;
            VideoAction::Done(LoopState::Exit)
        },
        (VideoPhase::Scaling { loop_count, pts }, VideoEvent::Scaled(frame)) => {
            let stamped = VideoFrame { pts, ..frame };
            schedule_frame(video, stamped, loop_count, clock, now)
        },
        (VideoPhase::Scaling { .. }, VideoEvent::ScaleFailed) => {
            video.phase = VideoPhase::Idle;
            VideoAction::Done(LoopState::Exit)
        },
        (VideoPhase::Presenting, VideoEvent::Presented(shown)) => {
            video.phase = VideoPhase::Idle;
            VideoAction::Done(if shown { LoopState::Running } else { LoopState::Exit })
        },
        _ => VideoAction::Done(LoopState::Exit),
    }
}

/// A flush marker reaches the decoder before any entry behind it: the step
/// that takes the marker asks for the flush and leaves the later entries in
/// the queue, in order.
pub proof fn lemma_flush_comes_first<P, F>(m: VideoModel<P, F>)
    requires
        m.stream.queue.len() > 0,
        m.stream.queue[0] is Flush,
    ensures
        next_entry(m).1 == VideoAction::<P, F>::FlushDecoder,
        next_entry(m).0.phase == VideoPhase::Flushing,
        next_entry(m).0.stream.queue == m.stream.queue.skip(1),
{
}

/// A picture goes to the render surface only while the clock plays and only
/// once it is due within the tolerance.
pub proof fn lemma_shown_only_when_due<P, F>(
    m: VideoModel<P, F>,
    frame: VideoFrame<F>,
    loop_count: u32,
    clock: TimeData,
    now: u64,
)
    requires
        schedule(m, frame, loop_count, clock, now).1 is Present,
    ensures
        clock.paused is None,
        frame.pts matches Some(pts) && clock.start_time + effective_timestamp(
            pts as int,
            m.stream.time_base,
            m.stream.duration as int,
            loop_count as nat,
        ) - now <= crate::config::FRAME_SLEEP_EPSILON,
        schedule(m, frame, loop_count, clock, now).1 == VideoAction::<P, F>::Present(frame),
{
}

/// A picture that is not shown at once is not lost: it is kept, with its
/// loop, for the next iteration. Only a picture without a timestamp is given
/// up.
pub proof fn lemma_early_picture_is_kept<P, F>(
    m: VideoModel<P, F>,
    frame: VideoFrame<F>,
    loop_count: u32,
    clock: TimeData,
    now: u64,
)
    requires
        schedule(m, frame, loop_count, clock, now).1 matches VideoAction::Done(state) && state
            != LoopState::Exit,
    ensures
        schedule(m, frame, loop_count, clock, now).0.scaled_frame == Some((frame, loop_count)),
        schedule(m, frame, loop_count, clock, now).0.phase == VideoPhase::Idle,
{
}

} // verus!
