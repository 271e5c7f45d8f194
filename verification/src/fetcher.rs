//! The fetcher: it reads the container packet by packet and routes each
//! packet into the queue of its stream, and it holds back while a queue is
//! full.
//!
//! The fetcher is a transition function over the state that all three loops
//! share. It asks the caller to read a packet or to seek back to the start,
//! and is told what came of it.

use vstd::prelude::*;
use crate::audio::audio_step;
use crate::audio::play_audio;
use crate::audio::AudioAction;
use crate::audio::AudioEvent;
use crate::audio::AudioModel;
use crate::audio::AudioStreamData;
use crate::clock::TimeData;
use crate::config::LoopState;
use crate::config::AUDIO_PACKET_QUEUE_MAX;
use crate::config::PAUSE_SLEEP;
use crate::config::QUEUE_FULL_SLEEP;
use crate::config::VIDEO_PACKET_QUEUE_MAX;
use crate::stream::Packet;
use crate::stream::PacketData;
use crate::stream::StreamModel;
use crate::video::play_video;
use crate::video::video_step;
use crate::video::VideoAction;
use crate::video::VideoEvent;
use crate::video::VideoModel;
use crate::video::VideoStreamData;

verus! {

/// Which answer the fetcher waits for.
#[derive(Clone, Copy, Debug, PartialEq, Eq, Structural)]
pub enum FetchPhase {
    /// None: the next iteration may begin.
    Ready,
    /// What reading the next packet gave.
    Reading,
    /// Whether the input is back at its start.
    Rewinding,
}

/// What the caller reports to the fetcher.
#[derive(Debug, PartialEq)]
pub enum FetchEvent<P> {
    /// An iteration begins.
    Tick,
    /// The input gave this packet of the stream with this index.
    Packet { stream_index: usize, packet: Packet<P> },
    /// The input has no more packets.
    EndOfInput,
    /// The input could not be read.
    ReadFailed,
    /// The input is back at its start.
    Rewound,
    /// The input could not be moved back to its start.
    RewindFailed,
}

/// What the fetcher asks of the caller.
#[derive(Clone, Copy, Debug, PartialEq, Eq, Structural)]
pub enum FetchAction {
    /// Read the next packet, then report `Packet`, `EndOfInput` or
    /// `ReadFailed`.
    Read,
    /// Seek to the start of the input, then report `Rewound` or
    /// `RewindFailed`.
    Rewind,
    /// The iteration is over.
    Done(LoopState),
}

/// Everything the three loops share: both streams, the clock, and how often
/// the input has been played through.
pub struct VideoState<P, F, A> {
    /// Number of completed loops.
    pub loop_count: u32,
    pub phase: FetchPhase,
    pub video: VideoStreamData<P, F>,
    pub audio: AudioStreamData<P, A>,
    pub time: TimeData,
}

/// The shared state as plain values.
#[verifier::ext_equal]
pub struct StateModel<P, F, A> {
    pub loop_count: u32,
    pub phase: FetchPhase,
    pub video: VideoModel<P, F>,
    pub audio: AudioModel<P, A>,
    pub time: TimeData,
}

impl<P, F, A> View for VideoState<P, F, A> {
    type V = StateModel<P, F, A>;

    open spec fn view(&self) -> StateModel<P, F, A> {
        StateModel {
            loop_count: self.loop_count,
            phase: self.phase,
            video: self.video@,
            audio: self.audio@,
            time: self.time,
        }
    }
}

impl<P, F, A> StateModel<P, F, A> {
    /// Whether the video queue is at its limit.
    pub open spec fn video_full(self) -> bool {
        self.video.stream.queue.len() >= VIDEO_PACKET_QUEUE_MAX
    }

    /// Whether the audio queue is at its limit.
    pub open spec fn audio_full(self) -> bool {
        self.audio.stream.queue.len() >= AUDIO_PACKET_QUEUE_MAX
    }

    /// The state with `entry` at the end of the video queue.
    pub open spec fn push_video(self, entry: PacketData<P>) -> Self {
        StateModel {
            video: VideoModel {
                stream: StreamModel {
                    queue: self.video.stream.queue.push(entry),
                    ..self.video.stream
                },
                ..self.video
            },
            ..self
        }
    }

    /// The state with `entry` at the end of the audio queue.
    pub open spec fn push_audio(self, entry: PacketData<P>) -> Self {
        StateModel {
            audio: AudioModel {
                stream: StreamModel {
                    queue: self.audio.stream.queue.push(entry),
                    ..self.audio.stream
                },
                ..self.audio
            },
            ..self
        }
    }

    /// The state with the fetcher's iteration over.
    pub open spec fn ready(self) -> Self {
        StateModel { phase: FetchPhase::Ready, ..self }
    }

    /// The number of completed loops after one more, which stops at
    /// `u32::MAX`.
    pub open spec fn next_loop(self) -> u32 {
        if self.loop_count < u32::MAX {
            (self.loop_count + 1) as u32
        } else {
            self.loop_count
        }
    }

    /// What always holds of the shared state: no queue is longer than its
    /// limit, and while the fetcher waits for an answer both have room.
    pub open spec fn bounded(self) -> bool {
        &&& self.video.stream.queue.len() <= VIDEO_PACKET_QUEUE_MAX
        &&& self.audio.stream.queue.len() <= AUDIO_PACKET_QUEUE_MAX
        &&& self.phase != FetchPhase::Ready ==> !self.video_full() && !self.audio_full()
    }
}

/// One step of the fetcher: the state after `event`, and the answer.
///
/// An iteration begins with the queues: while either is at its limit nothing
/// is read and the iteration ends in a sleep. A packet joins the queue of its
/// stream, marked with the number of completed loops; a packet of any other
/// stream is dropped. At the end of the input a clock that does not loop
/// makes the iteration end in a long sleep; a clock that loops sends the
/// input back to its start, after which both queues get a flush marker and
/// one more loop is complete. A failure to read or to seek ends the loop, and
/// so does an entry that finds its queue at its limit. Where the event is not
/// the answer that the state waits for, nothing changes and the loop ends.
pub open spec fn fetch_step<P, F, A>(m: StateModel<P, F, A>, event: FetchEvent<P>) -> (
    StateModel<P, F, A>,
    FetchAction,
) {
    match (m.phase, event) {
        (FetchPhase::Ready, FetchEvent::Tick) => {
            if m.video_full() || m.audio_full() {
                (m, FetchAction::Done(LoopState::Sleep(QUEUE_FULL_SLEEP)))
            } else {
                (StateModel { phase: FetchPhase::Reading, ..m }, FetchAction::Read)
            }
        },
        (FetchPhase::Reading, FetchEvent::Packet { stream_index, packet }) => {
            if stream_index == m.video.stream.stream_index {
                if m.video_full() {
                    (m.ready(), FetchAction::Done(LoopState::Exit))
                } else {
                    (
                        m.push_video(PacketData::Packet(packet, m.loop_count)).ready(),
                        FetchAction::Done(LoopState::Running),
                    )
                }
            } else if stream_index == m.audio.stream.stream_index {
                if m.audio_full() {
                    (m.ready(), FetchAction::Done(LoopState::Exit))
                } else {
                    (
                        m.push_audio(PacketData::Packet(packet, m.loop_count)).ready(),
                        FetchAction::Done(LoopState::Running),
                    )
                }
            } else {
                (m.ready(), FetchAction::Done(LoopState::Running))
            }
        },
        (FetchPhase::Reading, FetchEvent::EndOfInput) => {
            if !m.time.looping {
                (m.ready(), FetchAction::Done(LoopState::Sleep(PAUSE_SLEEP)))
            } else {
                (StateModel { phase: FetchPhase::Rewinding, ..m }, FetchAction::Rewind)
            }
        },
        (FetchPhase::Reading, FetchEvent::ReadFailed) => (
            m.ready(),
            FetchAction::Done(LoopState::Exit),
        ),
        (FetchPhase::Rewinding, FetchEvent::Rewound) => {
            if m.video_full() || m.audio_full() {
                (m.ready(), FetchAction::Done(LoopState::Exit))
            } else {
                (
                    StateModel {
                        loop_count: m.next_loop(),
                        ..m.push_video(PacketData::Flush).push_audio(PacketData::Flush).ready()
                    },
                    FetchAction::Done(LoopState::Running),
                )
            }
        },
        (FetchPhase::Rewinding, FetchEvent::RewindFailed) => (
            m.ready(),
            FetchAction::Done(LoopState::Exit),
        ),
        _ => (m, FetchAction::Done(LoopState::Exit)),
    }
}

impl<P, F, A> VideoState<P, F, A> {
    /// The shared state of a player that has done nothing yet.
    pub fn new(video: VideoStreamData<P, F>, audio: AudioStreamData<P, A>, time: TimeData) -> (state:
        Self)
        ensures
            state.loop_count == 0,
            state.phase == FetchPhase::Ready,
            state.video == video,
            state.audio == audio,
            state.time == time,
    {
        VideoState { loop_count: 0, phase: FetchPhase::Ready, video, audio, time }
    }

    /// One step of the video worker on the shared state, at `now` on the
    /// shared clock.
    pub fn step_video_at(&mut self, event: VideoEvent<F>, now: u64, surface: Option<(u32, u32)>) -> (action:
        VideoAction<P, F>)
        ensures
            (final(self)@.video, action) == video_step(
                old(self)@.video,
                event,
                old(self).time,
                now,
                surface,
            ),
            final(self)@ == (StateModel { video: final(self)@.video, ..old(self)@ }),
            old(self)@.bounded() ==> final(self)@.bounded(),
    {
        proof {
            lemma_video_step_only_takes(self@.video, event, self.time, now, surface);
        }
        play_video(&mut self.video, event, &self.time, now, surface)
    }

    /// One step of the video worker on the shared state, at the instant the
    /// machine's clock shows.
    pub fn step_video(&mut self, event: VideoEvent<F>, surface: Option<(u32, u32)>) -> (action:
        VideoAction<P, F>)
        ensures
            exists|now: u64|
                (final(self)@.video, action) == #[trigger] video_step(
                    old(self)@.video,
                    event,
                    old(self).time,
                    now,
                    surface,
                ),
            final(self)@ == (StateModel { video: final(self)@.video, ..old(self)@ }),
            old(self)@.bounded() ==> final(self)@.bounded(),
    {
        let now: u64 = self.time.now();
        self.step_video_at(event, now, surface)
    }

    /// One step of the audio worker on the shared state.
    pub fn step_audio(&mut self, event: AudioEvent<P, A>) -> (action: AudioAction<P, A>)
        ensures
            (final(self)@.audio, action) == audio_step(
                old(self)@.audio,
                event,
                old(self).time.paused is Some,
            ),
            final(self)@ == (StateModel { audio: final(self)@.audio, ..old(self)@ }),
            old(self)@.bounded() ==> final(self)@.bounded(),
    {
        proof {
            lemma_audio_step_only_takes(self@.audio, event, self.time.paused is Some);
        }
        let paused = self.time.is_paused();
        play_audio(&mut self.audio, event, paused)
    }
}

/// A step of the video worker leaves the video queue as it is or takes its
/// oldest entry.
pub proof fn lemma_video_step_only_takes<P, F>(
    m: VideoModel<P, F>,
    event: VideoEvent<F>,
    clock: TimeData,
    now: u64,
    surface: Option<(u32, u32)>,
)
    ensures
        ({
            let after = video_step(m, event, clock, now, surface).0.stream.queue;
            after == m.stream.queue || (m.stream.queue.len() > 0 && after == m.stream.queue.skip(1))
        }),
{
}

/// A step of the audio worker leaves the audio queue as it is or takes its
/// oldest entry.
pub proof fn lemma_audio_step_only_takes<P, A>(m: AudioModel<P, A>, event: AudioEvent<P, A>, paused: bool)
    ensures
        ({
            let after = audio_step(m, event, paused).0.stream.queue;
            after == m.stream.queue || (m.stream.queue.len() > 0 && after == m.stream.queue.skip(1))
        }),
{
}

/// One step of the fetcher.
pub fn enqueue_next_packet<P, F, A>(state: &mut VideoState<P, F, A>, event: FetchEvent<P>) -> (action:
    FetchAction)
    ensures
        (final(state)@, action) == fetch_step(old(state)@, event),
{
    let video_full = state.video.stream.packet_queue.len() >= VIDEO_PACKET_QUEUE_MAX;
    let audio_full = state.audio.stream.packet_queue.len() >= AUDIO_PACKET_QUEUE_MAX;
    match (state.phase, event) {
        (FetchPhase::Ready, FetchEvent::Tick) => {
            if video_full || audio_full {
                FetchAction::Done(LoopState::Sleep(QUEUE_FULL_SLEEP))
            } else {
                state.phase = FetchPhase::Reading;
                FetchAction::Read
            }
        },
        (FetchPhase::Reading, FetchEvent::Packet { stream_index, packet }) => {
            state.phase = FetchPhase::Ready;
            if stream_index == state.video.stream.stream_index {
                if video_full {
                    FetchAction::Done(LoopState::Exit)
                } else {
                    state.video.stream.packet_queue.push_back(
                        PacketData::Packet(packet, state.loop_count),
                    );
                    assert(final(state)@ =~= fetch_step(old(state)@, event).0);
                    FetchAction::Done(LoopState::Running)
                }
            } else if stream_index == state.audio.stream.stream_index {
                if audio_full {
                    FetchAction::Done(LoopState::Exit)
                } else {
                    state.audio.stream.packet_queue.push_back(
                        PacketData::Packet(packet, state.loop_count),
                    );
                    assert(final(state)@ =~= fetch_step(old(state)@, event).0);
                    FetchAction::Done(LoopState::Running)
                }
            } else {
                FetchAction::Done(LoopState::Running)
            }
        },
        (FetchPhase::Reading, FetchEvent::EndOfInput) => {
            if !state.time.looping {
                state.phase = FetchPhase::Ready;
                FetchAction::Done(LoopState::Sleep(PAUSE_SLEEP))
            } else {
                state.phase = FetchPhase::Rewinding;
                FetchAction::Rewind
            }
        },
        (FetchPhase::Reading, FetchEvent::ReadFailed) => {
            state.phase = FetchPhase::Ready;
            FetchAction::Done(LoopState::Exit)
        },
        (FetchPhase::Rewinding, FetchEvent::Rewound) => {
            state.phase = FetchPhase::Ready;
            if video_full || audio_full {
                FetchAction::Done(LoopState::Exit)
            } else {
                state.video.stream.packet_queue.push_back(PacketData::Flush);
                state.audio.stream.packet_queue.push_back(PacketData::Flush);
                if state.loop_count < u32::MAX {
                    state.loop_count = state.loop_count + 1;
                }
                assert(final(state)@ =~= fetch_step(old(state)@, event).0);
                FetchAction::Done(LoopState::Running)
            }
        },
        (FetchPhase::Rewinding, FetchEvent::RewindFailed) => {
            state.phase = FetchPhase::Ready;
            FetchAction::Done(LoopState::Exit)
        },
        _ => FetchAction::Done(LoopState::Exit),
    }
}

/// The fetcher never makes a queue longer than its limit, and it waits for
/// an answer only while both queues have room.
pub proof fn lemma_fetch_keeps_bounds<P, F, A>(m: StateModel<P, F, A>, event: FetchEvent<P>)
    requires
        m.bounded(),
    ensures
        fetch_step(m, event).0.bounded(),
{
}

/// Backpressure: whatever the event, the fetcher adds nothing to a queue
/// that is at its limit.
pub proof fn lemma_full_queue_gets_nothing<P, F, A>(m: StateModel<P, F, A>, event: FetchEvent<P>)
    ensures
        m.video_full() ==> fetch_step(m, event).0.video.stream.queue == m.video.stream.queue,
        m.audio_full() ==> fetch_step(m, event).0.audio.stream.queue == m.audio.stream.queue,
{
}

/// Backpressure: while either queue is at its limit, a state in which no
/// queue was ever overfilled reads nothing and adds nothing to either queue:
/// a new iteration ends in a sleep, and no answer is waited for.
pub proof fn lemma_full_queue_stops_fetcher<P, F, A>(m: StateModel<P, F, A>, event: FetchEvent<P>)
    requires
        m.bounded(),
        m.video_full() || m.audio_full(),
    ensures
        m.phase == FetchPhase::Ready,
        fetch_step(m, event).0 == m,
        fetch_step(m, event).1 == FetchAction::Done(
            if event is Tick {
                LoopState::Sleep(QUEUE_FULL_SLEEP)
            } else {
                LoopState::Exit
            },
        ),
{
}

/// In a state in which no queue was ever overfilled, a packet that was asked
/// for is never lost: a packet of the video stream ends up last in the video
/// queue, one of the audio stream last in the audio queue, each marked with
/// the number of completed loops.
pub proof fn lemma_packet_is_routed<P, F, A>(
    m: StateModel<P, F, A>,
    stream_index: usize,
    packet: Packet<P>,
)
    requires
        m.bounded(),
        m.phase == FetchPhase::Reading,
    ensures
        ({
            let (after, action) = fetch_step(m, FetchEvent::Packet { stream_index, packet });
            &&& action == FetchAction::Done(LoopState::Running)
            &&& stream_index == m.video.stream.stream_index ==> after.video.stream.queue
                == m.video.stream.queue.push(PacketData::Packet(packet, m.loop_count))
            &&& stream_index != m.video.stream.stream_index && stream_index
                == m.audio.stream.stream_index ==> after.audio.stream.queue
                == m.audio.stream.queue.push(PacketData::Packet(packet, m.loop_count))
        }),
{
}

/// The number of completed loops changes in one place only: when the input
/// is back at its start, it goes up by one, and both queues get their flush
/// marker in the same step.
pub proof fn lemma_loop_is_counted_once<P, F, A>(m: StateModel<P, F, A>, event: FetchEvent<P>)
    requires
        m.bounded(),
        m.loop_count < u32::MAX,
    ensures
        ({
            let after = fetch_step(m, event).0;
            if m.phase == FetchPhase::Rewinding && event is Rewound {
                &&& after.loop_count == m.loop_count + 1
                &&& after.video.stream.queue == m.video.stream.queue.push(PacketData::Flush)
                &&& after.audio.stream.queue == m.audio.stream.queue.push(PacketData::Flush)
            } else {
                after.loop_count == m.loop_count
            }
        }),
{
}

/// One step of any of the three loops.
pub enum LoopStep<P, F, A> {
    /// The fetcher receives an event.
    Fetch(FetchEvent<P>),
    /// The video worker receives an event at an instant, with the render
    /// surface at a size.
    Video(VideoEvent<F>, u64, Option<(u32, u32)>),
    /// The audio worker receives an event.
    Audio(AudioEvent<P, A>),
}

/// The shared state after one step of one loop.
pub open spec fn after_step<P, F, A>(m: StateModel<P, F, A>, step: LoopStep<P, F, A>) -> StateModel<
    P,
    F,
    A,
> {
    match step {
        LoopStep::Fetch(event) => fetch_step(m, event).0,
        LoopStep::Video(event, now, surface) => StateModel {
            video: video_step(m.video, event, m.time, now, surface).0,
            ..m
        },
        LoopStep::Audio(event) => StateModel {
            audio: audio_step(m.audio, event, m.time.paused is Some).0,
            ..m
        },
    }
}

/// The shared state after a run of steps, in the order given.
pub open spec fn after_steps<P, F, A>(
    m: StateModel<P, F, A>,
    steps: Seq<LoopStep<P, F, A>>,
) -> StateModel<P, F, A>
    decreases steps.len(),
{
    if steps.len() == 0 {
        m
    } else {
        after_step(after_steps(m, steps.drop_last()), steps.last())
    }
}

/// However the three loops take turns, and whatever they are told, no queue
/// ever grows beyond its limit.
pub proof fn lemma_queues_never_overflow<P, F, A>(
    m: StateModel<P, F, A>,
    steps: Seq<LoopStep<P, F, A>>,
)
    requires
        m.bounded(),
    ensures
        after_steps(m, steps).bounded(),
        after_steps(m, steps).video.stream.queue.len() <= VIDEO_PACKET_QUEUE_MAX,
        after_steps(m, steps).audio.stream.queue.len() <= AUDIO_PACKET_QUEUE_MAX,
    decreases steps.len(),
{
    if steps.len() > 0 {
        let before = after_steps(m, steps.drop_last());
        lemma_queues_never_overflow(m, steps.drop_last());
        match steps.last() {
            LoopStep::Fetch(event) => {
                lemma_fetch_keeps_bounds(before, event);
            },
            LoopStep::Video(event, now, surface) => {
                lemma_video_step_only_takes(before.video, event, before.time, now, surface);
            },
            LoopStep::Audio(event) => {
                lemma_audio_step_only_takes(before.audio, event, before.time.paused is Some);
            },
        }
    }
}

} // verus!
