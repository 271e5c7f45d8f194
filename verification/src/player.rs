//! The player: the object that owns the shared state, sets it up, and
//! answers for play, pause, looping and position.

use vstd::prelude::*;
use crate::audio::AudioStreamData;
use crate::clock::TimeData;
use crate::fetcher::FetchPhase;
use crate::fetcher::StateModel;
use crate::fetcher::VideoState;
use crate::stream::duration_millis;
use crate::stream::StreamData;
use crate::stream::TimeBase;
use crate::video::VideoStreamData;

verus! {

/// Delay, in milliseconds, between two looks at whether the picture size is
/// known.
pub const INIT_POLL_SLEEP: u64 = 5;

/// What `init` reports once the first picture was decoded.
#[derive(Clone, Copy, Debug, PartialEq, Eq)]
pub struct InitResult {
    /// Length of the video stream in milliseconds.
    pub duration: i64,
    /// Width and height of the stream's pictures.
    pub size: (u32, u32),
}

/// Why a player could not be set up.
#[derive(Clone, Copy, Debug, PartialEq, Eq, Structural)]
pub enum InitError {
    /// The input could not be opened, or lacks a video or an audio stream.
    OpenFailed,
    /// No picture was decoded within the time allowed.
    SizeUnknown,
}

/// What the caller of `init` does next.
#[derive(Clone, Copy, Debug, PartialEq, Eq)]
pub enum InitPoll {
    /// Setting up is over, with this result.
    Ready(InitResult),
    /// Wait this many milliseconds, then ask again.
    Wait(u64),
    /// Setting up has failed.
    Failed(InitError),
}

/// What the container says of one stream.
#[derive(Clone, Copy, Debug)]
pub struct StreamInfo {
    /// The stream's index in the container.
    pub index: usize,
    /// The length of one tick of the stream's timestamps.
    pub time_base: TimeBase,
    /// The stream's length in ticks.
    pub duration: i64,
}

/// A player for the media at `uri`.
pub struct FFmpegPlayer<P, F, A> {
    pub uri: String,
    /// The state that the loops share, once `init` has set it up.
    pub state: Option<VideoState<P, F, A>>,
}

/// The shared state as `init` leaves it: nothing queued, decoded or cached,
/// no loop complete, and a clock that plays from zero, does not loop and
/// has the length of the video stream.
pub open spec fn freshly_set_up<P, F, A>(
    state: VideoState<P, F, A>,
    video: StreamInfo,
    audio: StreamInfo,
) -> bool {
    let length = duration_millis(video.duration as int, video.time_base);
    &&& state.loop_count == 0
    &&& state.phase == FetchPhase::Ready
    &&& state.video.stream.stream_index == video.index
    &&& state.video.stream.time_base == video.time_base
    &&& state.video.stream.duration == length
    &&& state.video.stream.packet_queue@.len() == 0
    &&& state.video.width is None
    &&& state.video.height is None
    &&& state.video.source_frame is None
    &&& state.video.scaled_frame is None
    &&& state.video.scaler is None
    &&& state.video.phase == crate::video::VideoPhase::Idle
    &&& state.audio.stream.stream_index == audio.index
    &&& state.audio.stream.time_base == audio.time_base
    &&& state.audio.stream.duration == duration_millis(audio.duration as int, audio.time_base)
    &&& state.audio.stream.packet_queue@.len() == 0
    &&& state.audio.output is None
    &&& state.audio.source_frames@.len() == 0
    &&& state.audio.resampled_frames@.len() == 0
    &&& state.audio.resampler is None
    &&& state.audio.sample_buffer is None
    &&& state.audio.phase == crate::audio::AudioPhase::Idle
    &&& state.audio.decoded@.len() == 0
    &&& state.time.start_time == 0
    &&& state.time.paused is None
    &&& !state.time.looping
    &&& state.time.duration == length
}

/// What `poll_init` answers for a state, after `waited` of at most `limit`
/// milliseconds: the result as soon as width and height are known, else a
/// short wait while time is left, else failure. Without a state there is
/// nothing to wait for.
pub open spec fn init_progress<P, F, A>(
    state: Option<VideoState<P, F, A>>,
    waited: u64,
    limit: u64,
) -> InitPoll {
    match state {
        None => InitPoll::Failed(InitError::OpenFailed),
        Some(s) => match (s.video.width, s.video.height) {
            (Some(width), Some(height)) => InitPoll::Ready(
                InitResult { duration: s.video.stream.duration, size: (width, height) },
            ),
            _ => if waited >= limit {
                InitPoll::Failed(InitError::SizeUnknown)
            } else {
                InitPoll::Wait(INIT_POLL_SLEEP)
            },
        },
    }
}

impl<P, F, A> FFmpegPlayer<P, F, A> {
    /// A player that has not opened its input yet.
    pub fn new(uri: String) -> (player: Self)
        ensures
            player.uri == uri,
            player.state is None,
    {
        FFmpegPlayer { uri, state: None }
    }

    /// Sets up the shared state from what the container says of its best
    /// video and audio streams. With either missing nothing changes and the
    /// input counts as not opened.
    pub fn init(&mut self, video: Option<StreamInfo>, audio: Option<StreamInfo>) -> (outcome: Result<
        (),
        InitError,
    >)
        ensures
            final(self).uri == old(self).uri,
            match (video, audio) {
                (Some(v), Some(a)) => {
                    &&& outcome is Ok
                    &&& final(self).state matches Some(state)
                    &&& freshly_set_up(state, v, a)
                    &&& state@.bounded()
                },
                _ => outcome == Err::<(), InitError>(InitError::OpenFailed) && *final(self) == *old(
                    self,
                ),
            },
    {
        match (video, audio) {
            (Some(v), Some(a)) => {
                let video_stream = StreamData::new(v.index, v.time_base, v.duration);
                let audio_stream = StreamData::new(a.index, a.time_base, a.duration);
                let mut time = TimeData::new();
                time.set_duration(video_stream.duration);
                let state = VideoState::new(
                    VideoStreamData::new(video_stream),
                    AudioStreamData::new(audio_stream),
                    time,
                );
                self.state = Some(state);
                Ok(())
            },
            _ => Err(InitError::OpenFailed),
        }
    }

    /// Says whether `init` can return, after `waited` of at most `limit`
    /// milliseconds of waiting for the first picture.
    pub fn poll_init(&self, waited: u64, limit: u64) -> (poll: InitPoll)
        ensures
            poll == init_progress(self.state, waited, limit),
    {
        match &self.state {
            None => InitPoll::Failed(InitError::OpenFailed),
            Some(s) => match (s.video.width, s.video.height) {
                (Some(width), Some(height)) => InitPoll::Ready(
                    InitResult { duration: s.video.stream.duration, size: (width, height) },
                ),
                _ => if waited >= limit {
                    InitPoll::Failed(InitError::SizeUnknown)
                } else {
                    InitPoll::Wait(INIT_POLL_SLEEP)
                },
            },
        }
    }

    /// Pauses playback at the instant the machine's clock shows. Before
    /// `init` there is nothing to pause.
    pub fn pause(&mut self)
        ensures
            final(self).uri == old(self).uri,
            match old(self).state {
                None => final(self).state is None,
                Some(before) => {
                    &&& final(self).state matches Some(after)
                    &&& after@ == (StateModel { time: after.time, ..before@ })
                    &&& exists|now: u64| after.time == before.time.paused_at(now)
                },
            },
    {
        match &mut self.state {
            None => {},
            Some(state) => {
                state.time.pause();
            },
        }
    }

    /// Resumes playback at the instant the machine's clock shows. Before
    /// `init` there is nothing to resume.
    pub fn play(&mut self)
        ensures
            final(self).uri == old(self).uri,
            match old(self).state {
                None => final(self).state is None,
                Some(before) => {
                    &&& final(self).state matches Some(after)
                    &&& after@ == (StateModel { time: after.time, ..before@ })
                    &&& exists|now: u64| after.time == before.time.resumed_at(now)
                },
            },
    {
        match &mut self.state {
            None => {},
            Some(state) => {
                state.time.play();
            },
        }
    }

    /// Switches looping on or off. Before `init` there is nothing to switch.
    pub fn set_looping(&mut self, looping: bool)
        ensures
            final(self).uri == old(self).uri,
            match old(self).state {
                None => final(self).state is None,
                Some(before) => {
                    &&& final(self).state matches Some(after)
                    &&& after@ == (StateModel { time: after.time, ..before@ })
                    &&& after.time == (TimeData { looping, ..before.time })
                },
            },
    {
        match &mut self.state {
            None => {},
            Some(state) => {
                state.time.set_looping(looping);
            },
        }
    }

    /// The position at `now` on the player's clock, in milliseconds; zero
    /// before `init`.
    pub fn position_at(&self, now: u64) -> (position: i64)
        ensures
            position == match self.state {
                None => 0,
                Some(state) => state.time.position_spec(now),
            },
    {
        match &self.state {
            None => 0,
            Some(state) => state.time.position_at(now),
        }
    }

    /// The position at the instant the machine's clock shows, in
    /// milliseconds; zero before `init`.
    pub fn position(&self) -> (position: i64)
        ensures
            match self.state {
                None => position == 0,
                Some(state) => exists|now: u64| position == state.time.position_spec(now),
            },
    {
        match &self.state {
            None => 0,
            Some(state) => state.time.position(),
        }
    }
}

} // verus!
