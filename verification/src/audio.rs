//! The audio worker: from queue entry to decoded frames, to resampled
//! frames, to samples in the output ring.
//!
//! Like the video worker it is a transition function: the caller reports an
//! `AudioEvent`, the worker changes its state and answers with an
//! `AudioAction`. One packet may hold several frames, so a packet goes to the
//! decoder again and again, each time from the byte the decoder stopped at,
//! until all its bytes are used. The packet itself is never altered.

use vstd::prelude::*;
use std::collections::VecDeque;
use crate::config::LoopState;
use crate::config::AUDIO_BUFFER_MAX;
use crate::config::NO_PACKET_SLEEP;
use crate::config::PAUSE_SLEEP;
use crate::config::QUEUE_FULL_SLEEP;
use crate::frame::AudioFrame;
use crate::frame::AudioShape;
use crate::frame::DeviceFormat;
use crate::frame::DeviceSampleFormat;
use crate::frame::OutputFormat;
use crate::frame::SampleFormat;
use crate::ring::RingModel;
use crate::ring::SampleBuffer;
use crate::stream::Packet;
use crate::stream::PacketData;
use crate::stream::StreamData;
use crate::stream::StreamModel;

verus! {

/// What a resampler was built for.
#[derive(Clone, Copy, Debug, PartialEq, Eq, Structural)]
pub struct ResamplerShape {
    pub source: AudioShape,
    pub target: OutputFormat,
}

/// Which answer the audio worker waits for.
#[derive(Clone, Copy, Debug, PartialEq, Eq, Structural)]
pub enum AudioPhase {
    /// None: the next iteration may begin.
    Idle,
    /// That the device was told to pause.
    Pausing,
    /// That the device was told to play.
    Resuming,
    /// The format of the device's new output stream.
    Opening,
    /// That the decoder was flushed.
    Flushing,
    /// What the decoder made of the packet in hand.
    Decoding,
    /// What the resampler made.
    Resampling,
}

/// What the caller reports to the audio worker.
#[derive(Debug, PartialEq)]
pub enum AudioEvent<P, A> {
    /// An iteration begins.
    Tick,
    /// The device was told to pause or to play; what it answered is ignored.
    DeviceSet,
    /// The device opened an output stream of this format, and its
    /// pull-callback is in place.
    DeviceOpened(DeviceFormat),
    /// The device opened no output stream.
    DeviceFailed,
    /// The decoder has dropped what it held.
    Flushed,
    /// The decoder used `consumed` bytes of `packet` and left `frame`, which
    /// has no format where those bytes completed no frame.
    Decoded { packet: Packet<P>, consumed: usize, frame: AudioFrame<A> },
    /// The decoder refused the packet.
    DecodeFailed,
    /// The resampler made a frame with these interleaved bytes, and holds
    /// more output if `pending` says so.
    Resampled { bytes: Vec<u8>, pending: bool },
    /// The resampler could not be built or run.
    ResampleFailed,
}

/// What the audio worker asks of the caller.
#[derive(Debug, PartialEq)]
#[allow(inconsistent_fields)]
pub enum AudioAction<P, A> {
    /// Tell the device to pause, then report `DeviceSet`.
    PauseDevice,
    /// Tell the device to play, then report `DeviceSet`.
    ResumeDevice,
    /// Open the device's output stream and put the pull-callback in place,
    /// then report `DeviceOpened` or `DeviceFailed`.
    OpenDevice,
    /// Flush the decoder, then report `Flushed`.
    FlushDecoder,
    /// Decode `packet` from its byte `offset` on, then report `Decoded` or
    /// `DecodeFailed`.
    Decode { packet: Packet<P>, offset: usize },
    /// Resample `frame` to `target`, with a new resampler if `rebuild` says
    /// so, then report `Resampled` or `ResampleFailed`.
    Resample { frame: AudioFrame<A>, target: OutputFormat, rebuild: bool },
    /// Take the output that the resampler still holds, as a frame of format
    /// `target`, then report `Resampled` or `ResampleFailed`.
    FlushResampler { target: OutputFormat },
    /// The iteration is over.
    Done(LoopState),
}

/// State of the audio worker.
pub struct AudioStreamData<P, A> {
    pub stream: StreamData<P>,
    /// The resampler target, once the device's output stream is open.
    pub output: Option<OutputFormat>,
    /// Decoded frames that wait for the resampler, oldest first.
    pub source_frames: VecDeque<AudioFrame<A>>,
    /// Resampled frames that wait for room in the ring, oldest first, each as
    /// its interleaved bytes.
    pub resampled_frames: VecDeque<Vec<u8>>,
    /// What the resampler in use was built for.
    pub resampler: Option<ResamplerShape>,
    /// The ring that the device's pull-callback drains, once the device's
    /// output stream is open.
    pub sample_buffer: Option<SampleBuffer>,
    pub phase: AudioPhase,
    /// Size in bytes of the packet in hand.
    pub packet_size: usize,
    /// Bytes of the packet in hand that the decoder has used.
    pub consumed: usize,
    /// Frames that the packet in hand has given so far.
    pub decoded: VecDeque<AudioFrame<A>>,
}

/// The audio worker's state as plain values.
#[verifier::ext_equal]
pub struct AudioModel<P, A> {
    pub stream: StreamModel<P>,
    pub output: Option<OutputFormat>,
    pub source_frames: Seq<AudioFrame<A>>,
    pub resampled_frames: Seq<Vec<u8>>,
    pub resampler: Option<ResamplerShape>,
    pub ring: Option<RingModel>,
    pub phase: AudioPhase,
    pub packet_size: usize,
    pub consumed: usize,
    pub decoded: Seq<AudioFrame<A>>,
}

impl<P, A> View for AudioStreamData<P, A> {
    type V = AudioModel<P, A>;

    open spec fn view(&self) -> AudioModel<P, A> {
        AudioModel {
            stream: self.stream@,
            output: self.output,
            source_frames: self.source_frames@,
            resampled_frames: self.resampled_frames@,
            resampler: self.resampler,
            ring: match self.sample_buffer {
                Some(ring) => Some(ring@),
                None => None,
            },
            phase: self.phase,
            packet_size: self.packet_size,
            consumed: self.consumed,
            decoded: self.decoded@,
        }
    }
}

/// The state with the iteration over and no packet in hand.
pub open spec fn at_rest<P, A>(m: AudioModel<P, A>) -> AudioModel<P, A> {
    AudioModel { phase: AudioPhase::Idle, consumed: 0, decoded: Seq::empty(), ..m }
}

/// Takes the oldest queue entry. With none there, the iteration ends in a
/// short sleep; a flush marker goes to the decoder as a flush; a packet goes
/// to the decoder from its first byte.
pub open spec fn next_packet<P, A>(m: AudioModel<P, A>) -> (AudioModel<P, A>, AudioAction<P, A>) {
    if m.stream.queue.len() == 0 {
        (at_rest(m), AudioAction::Done(LoopState::Sleep(NO_PACKET_SLEEP)))
    } else {
        let stream = StreamModel { queue: m.stream.queue.skip(1), ..m.stream };
        match m.stream.queue[0] {
            PacketData::Flush => (
                AudioModel { stream, phase: AudioPhase::Flushing, ..at_rest(m) },
                AudioAction::FlushDecoder,
            ),
            PacketData::Packet(packet, _) => (
                AudioModel {
                    stream,
                    phase: AudioPhase::Decoding,
                    packet_size: packet.size,
                    ..at_rest(m)
                },
                AudioAction::Decode { packet, offset: 0 },
            ),
        }
    }
}

/// Sends a decoded frame to the resampler, which is rebuilt unless it was
/// built for frames of this shape and for the device's format. With no
/// device format known the loop ends.
pub open spec fn resample<P, A>(m: AudioModel<P, A>, frame: AudioFrame<A>) -> (
    AudioModel<P, A>,
    AudioAction<P, A>,
) {
    match m.output {
        None => (at_rest(m), AudioAction::Done(LoopState::Exit)),
        Some(target) => {
            let shape = ResamplerShape { source: frame.shape, target };
            (
                AudioModel { resampler: Some(shape), phase: AudioPhase::Resampling, ..m },
                AudioAction::Resample { frame, target, rebuild: m.resampler != Some(shape) },
            )
        },
    }
}

/// Takes the oldest decoded frame, for a state that holds one, and sends it
/// to the resampler.
pub open spec fn resample_oldest<P, A>(m: AudioModel<P, A>) -> (
    AudioModel<P, A>,
    AudioAction<P, A>,
) {
    resample(AudioModel { source_frames: m.source_frames.skip(1), ..m }, m.source_frames[0])
}

/// Offers a resampled frame to the ring. Where the ring would grow beyond
/// its limit the frame goes back to the front of the waiting frames and the
/// iteration ends in a sleep; else its samples join the ring. Without a ring
/// the loop ends.
pub open spec fn feed_ring<P, A>(m: AudioModel<P, A>, frame: Vec<u8>) -> (
    AudioModel<P, A>,
    AudioAction<P, A>,
) {
    match m.ring {
        None => (at_rest(m), AudioAction::Done(LoopState::Exit)),
        Some(ring) => {
            if ring.len() + ring.sample_count(frame@) > AUDIO_BUFFER_MAX {
                (
                    AudioModel {
                        resampled_frames: seq![frame] + m.resampled_frames,
                        ..at_rest(m)
                    },
                    AudioAction::Done(LoopState::Sleep(QUEUE_FULL_SLEEP)),
                )
            } else {
                (
                    AudioModel { ring: Some(ring.extended(frame@)), ..at_rest(m) },
                    AudioAction::Done(LoopState::Running),
                )
            }
        },
    }
}

/// Goes on with what is nearest to the ring: a resampled frame that waits,
/// else a decoded frame that waits, else the queue.
pub open spec fn work<P, A>(m: AudioModel<P, A>) -> (AudioModel<P, A>, AudioAction<P, A>) {
    if m.resampled_frames.len() > 0 {
        feed_ring(
            AudioModel { resampled_frames: m.resampled_frames.skip(1), ..m },
            m.resampled_frames[0],
        )
    } else if m.source_frames.len() > 0 {
        resample_oldest(m)
    } else {
        next_packet(m)
    }
}

/// Receives what the decoder made of the packet in hand. A frame with a
/// format is kept. A decoder that claims more bytes than the packet has left
/// ends the loop. While bytes are left the same packet goes back to the
/// decoder, from the first unused byte. Once all are used the packet is
/// dropped: if it gave no frame the next queue entry is taken at once, else
/// its frames join the decoded frames and the oldest goes to the resampler.
pub open spec fn receive_decoded<P, A>(
    m: AudioModel<P, A>,
    packet: Packet<P>,
    consumed: usize,
    frame: AudioFrame<A>,
) -> (AudioModel<P, A>, AudioAction<P, A>) {
    let frames = if frame.shape.format != SampleFormat::Missing {
        m.decoded.push(frame)
    } else {
        m.decoded
    };
    let used = m.consumed + consumed;
    if used > m.packet_size {
        (at_rest(m), AudioAction::Done(LoopState::Exit))
    } else if used < m.packet_size {
        (
            AudioModel { consumed: used as usize, decoded: frames, ..m },
            AudioAction::Decode { packet, offset: used as usize },
        )
    } else if frames.len() == 0 {
        next_packet(at_rest(m))
    } else {
        resample_oldest(AudioModel { source_frames: m.source_frames + frames, ..at_rest(m) })
    }
}

/// Receives the format of the device's new output stream. A format that
/// cannot be served ends the loop; else the resampler target and an empty
/// ring of the device's element type are set up, and work goes on.
pub open spec fn receive_device<P, A>(m: AudioModel<P, A>, format: DeviceFormat) -> (
    AudioModel<P, A>,
    AudioAction<P, A>,
) {
    match OutputFormat::target_of(format) {
        Err(_) => (at_rest(m), AudioAction::Done(LoopState::Exit)),
        Ok(target) => work(
            AudioModel {
                output: Some(target),
                ring: Some(
                    if format.data_type == DeviceSampleFormat::F32 {
                        RingModel::F32(Seq::empty())
                    } else {
                        RingModel::I16(Seq::empty())
                    },
                ),
                ..m
            },
        ),
    }
}

/// One step of the audio worker: the state after `event`, and the answer.
///
/// An iteration begins with the device: while the clock is paused the
/// device is paused and the iteration ends in a sleep; else the device plays,
/// or is opened first. A frame from the resampler joins the waiting frames;
/// while the resampler holds more it is asked again. Where the event is not
/// the answer that the state waits for, nothing changes and the loop ends.
pub open spec fn audio_step<P, A>(m: AudioModel<P, A>, event: AudioEvent<P, A>, paused: bool) -> (
    AudioModel<P, A>,
    AudioAction<P, A>,
) {
    match (m.phase, event) {
        (AudioPhase::Idle, AudioEvent::Tick) => {
            if paused {
                if m.output is Some {
                    (AudioModel { phase: AudioPhase::Pausing, ..m }, AudioAction::PauseDevice)
                } else {
                    (at_rest(m), AudioAction::Done(LoopState::Sleep(PAUSE_SLEEP)))
                }
            } else if m.output is Some {
                (AudioModel { phase: AudioPhase::Resuming, ..m }, AudioAction::ResumeDevice)
            } else {
                (AudioModel { phase: AudioPhase::Opening, ..m }, AudioAction::OpenDevice)
            }
        },
        (AudioPhase::Pausing, AudioEvent::DeviceSet) => (
            at_rest(m),
            AudioAction::Done(LoopState::Sleep(PAUSE_SLEEP)),
        ),
        (AudioPhase::Resuming, AudioEvent::DeviceSet) => work(m),
        (AudioPhase::Opening, AudioEvent::DeviceOpened(format)) => receive_device(m, format),
        (AudioPhase::Opening, AudioEvent::DeviceFailed) => (
            at_rest(m),
            AudioAction::Done(LoopState::Exit),
        ),
        (AudioPhase::Flushing, AudioEvent::Flushed) => next_packet(m),
        (AudioPhase::Decoding, AudioEvent::Decoded { packet, consumed, frame }) => receive_decoded(
            m,
            packet,
            consumed,
            frame,
        ),
        (AudioPhase::Decoding, AudioEvent::DecodeFailed) => (
            at_rest(m),
            AudioAction::Done(LoopState::Exit),
        ),
        (AudioPhase::Resampling, AudioEvent::Resampled { bytes: frame, pending }) => {
            let kept = AudioModel { resampled_frames: m.resampled_frames.push(frame), ..m };
            if !pending {
                work(kept)
            } else {
                match m.output {
                    Some(target) => (kept, AudioAction::FlushResampler { target }),
                    None => (at_rest(kept), AudioAction::Done(LoopState::Exit)),
                }
            }
        },
        (AudioPhase::Resampling, AudioEvent::ResampleFailed) => (
            at_rest(m),
            AudioAction::Done(LoopState::Exit),
        ),
        _ => (m, AudioAction::Done(LoopState::Exit)),
    }
}

impl<P, A> AudioStreamData<P, A> {
    /// The state of an audio worker that has done nothing yet.
    pub fn new(stream: StreamData<P>) -> (audio: Self)
        ensures
            audio.stream == stream,
            audio.output is None,
            audio.source_frames@ == Seq::<AudioFrame<A>>::empty(),
            audio.resampled_frames@ == Seq::<Vec<u8>>::empty(),
            audio.resampler is None,
            audio.sample_buffer is None,
            audio.phase == AudioPhase::Idle,
            audio.packet_size == 0,
            audio.consumed == 0,
            audio.decoded@ == Seq::<AudioFrame<A>>::empty(),
    {
        AudioStreamData {
            stream,
            output: None,
            source_frames: VecDeque::new(),
            resampled_frames: VecDeque::new(),
            resampler: None,
            sample_buffer: None,
            phase: AudioPhase::Idle,
            packet_size: 0,
            consumed: 0,
            decoded: VecDeque::new(),
        }
    }

    fn rest(&mut self)
        ensures
            final(self)@ == at_rest(old(self)@),
    {
        self.phase = AudioPhase::Idle;
        self.consumed = 0;
        self.decoded.clear();
    }
}

/// Takes the oldest entry of the audio queue and says what the decoder is to
/// do with it.
pub fn get_audio_source_frames<P, A>(audio: &mut AudioStreamData<P, A>) -> (action:
    AudioAction<P, A>)
    ensures
        (final(audio)@, action) == next_packet(old(audio)@),
{
    audio.rest();
    match audio.stream.packet_queue.pop_front() {
        None => AudioAction::Done(LoopState::Sleep(NO_PACKET_SLEEP)),
        Some(PacketData::Flush) => {
            audio.phase = AudioPhase::Flushing;
            assert(final(audio)@ =~= next_packet(old(audio)@).0);
            AudioAction::FlushDecoder
        },
        Some(PacketData::Packet(packet, _)) => {
            audio.phase = AudioPhase::Decoding;
            audio.packet_size = packet.size;
            assert(final(audio)@ =~= next_packet(old(audio)@).0);
            AudioAction::Decode { packet, offset: 0 }
        },
    }
}

/// Sends a decoded frame to the resampler.
pub fn resample_source_frame<P, A>(audio: &mut AudioStreamData<P, A>, source_frame: AudioFrame<A>) -> (action:
    AudioAction<P, A>)
    ensures
        (final(audio)@, action) == resample(old(audio)@, source_frame),
{
    match audio.output {
        None => {
            audio.rest();
            AudioAction::Done(LoopState::Exit)
        },
        Some(target) => {
            let shape = ResamplerShape { source: source_frame.shape, target };
            let rebuild = match audio.resampler {
                Some(built) => built != shape,
                None => true,
            };
            audio.resampler = Some(shape);
            audio.phase = AudioPhase::Resampling;
            AudioAction::Resample { frame: source_frame, target, rebuild }
        },
    }
}

/// Takes the oldest decoded frame, if there is one, and sends it to the
/// resampler; with none there, takes the next queue entry.
fn resample_or_fetch<P, A>(audio: &mut AudioStreamData<P, A>) -> (action: AudioAction<P, A>)
    ensures
        (final(audio)@, action) == (if old(audio)@.source_frames.len() > 0 {
            resample_oldest(old(audio)@)
        } else {
            next_packet(old(audio)@)
        }),
{
    match audio.source_frames.pop_front() {
        Some(frame) => {
            assert(audio@ =~= (AudioModel {
                source_frames: old(audio)@.source_frames.skip(1),
                ..old(audio)@
            }));
            resample_source_frame(audio, frame)
        },
        None => get_audio_source_frames(audio),
    }
}

/// Offers a resampled frame to the ring.
pub fn buffer_samples<P, A>(audio: &mut AudioStreamData<P, A>, frame: Vec<u8>) -> (action:
    AudioAction<P, A>)
    ensures
        (final(audio)@, action) == feed_ring(old(audio)@, frame),
{
    audio.rest();
    let room = match &audio.sample_buffer {
        None => {
            return AudioAction::Done(LoopState::Exit);
        },
        Some(ring) => ring.has_room_for(&frame, AUDIO_BUFFER_MAX),
    };
    if !room {
        audio.resampled_frames.push_front(frame);
        assert(final(audio)@ =~= feed_ring(old(audio)@, frame).0);
        return AudioAction::Done(LoopState::Sleep(QUEUE_FULL_SLEEP));
    }
    match &mut audio.sample_buffer {
        None => {},
        Some(ring) => {
            ring.extend_from_bytes(&frame);
        },
    }
    assert(final(audio)@ =~= feed_ring(old(audio)@, frame).0);
    AudioAction::Done(LoopState::Running)
}

/// Goes on with what is nearest to the ring.
pub fn advance<P, A>(audio: &mut AudioStreamData<P, A>) -> (action: AudioAction<P, A>)
    ensures
        (final(audio)@, action) == work(old(audio)@),
{
    match audio.resampled_frames.pop_front() {
        Some(frame) => {
            assert(audio@ =~= (AudioModel {
                resampled_frames: old(audio)@.resampled_frames.skip(1),
                ..old(audio)@
            }));
            buffer_samples(audio, frame)
        },
        None => resample_or_fetch(audio),
    }
}

/// Receives what the decoder made of the packet in hand.
pub fn collect_decoded<P, A>(
    audio: &mut AudioStreamData<P, A>,
    packet: Packet<P>,
    consumed: usize,
    frame: AudioFrame<A>,
) -> (action: AudioAction<P, A>)
    ensures
        (final(audio)@, action) == receive_decoded(old(audio)@, packet, consumed, frame),
{
    if audio.consumed > audio.packet_size || consumed > audio.packet_size - audio.consumed {
        audio.rest();
        return AudioAction::Done(LoopState::Exit);
    }
    let used: usize = audio.consumed + consumed;
    let ghost frames = if frame.shape.format != SampleFormat::Missing {
        old(audio)@.decoded.push(frame)
    } else {
        old(audio)@.decoded
    };
    if frame.shape.format != SampleFormat::Missing {
        audio.decoded.push_back(frame);
    }
    if used < audio.packet_size {
        audio.consumed = used;
        assert(final(audio)@ =~= receive_decoded(old(audio)@, packet, consumed, frame).0);
        return AudioAction::Decode { packet, offset: used };
    }
    if audio.decoded.len() == 0 {
        assert(audio@ =~= old(audio)@);
        audio.rest();
        return get_audio_source_frames(audio);
    }
    audio.source_frames.append(&mut audio.decoded);
    audio.phase = AudioPhase::Idle;
    audio.consumed = 0;
    assert(audio@ =~= (AudioModel {
        source_frames: old(audio)@.source_frames + frames,
        ..at_rest(old(audio)@)
    }));
    resample_or_fetch(audio)
}

/// Receives the format of the device's new output stream.
pub fn open_output<P, A>(audio: &mut AudioStreamData<P, A>, format: DeviceFormat) -> (action:
    AudioAction<P, A>)
    ensures
        (final(audio)@, action) == receive_device(old(audio)@, format),
{
    match OutputFormat::try_from(&format) {
        Err(_) => {
            audio.rest();
            AudioAction::Done(LoopState::Exit)
        },
        Ok(target) => {
            audio.output = Some(target);
            audio.sample_buffer = Some(
                if format.data_type == DeviceSampleFormat::F32 {
                    SampleBuffer::new_f32()
                } else {
                    SampleBuffer::new_i16()
                },
            );
            assert(audio@ =~= (AudioModel {
                output: Some(target),
                ring: Some(
                    if format.data_type == DeviceSampleFormat::F32 {
                        RingModel::F32(Seq::empty())
                    } else {
                        RingModel::I16(Seq::empty())
                    },
                ),
                ..old(audio)@
            }));
            advance(audio)
        },
    }
}

/// One step of the audio worker. `paused` says whether the shared clock is
/// paused.
pub fn play_audio<P, A>(
    audio: &mut AudioStreamData<P, A>,
    event: AudioEvent<P, A>,
    paused: bool,
) -> (action: AudioAction<P, A>)
    ensures
        (final(audio)@, action) == audio_step(old(audio)@, event, paused),
{
    match (audio.phase, event) {
        (AudioPhase::Idle, AudioEvent::Tick) => {
            if paused {
                if audio.output.is_some() {
                    audio.phase = AudioPhase::Pausing;
                    AudioAction::PauseDevice
                } else {
                    audio.rest();
                    AudioAction::Done(LoopState::Sleep(PAUSE_SLEEP))
                }
            } else if audio.output.is_some() {
                audio.phase = AudioPhase::Resuming;
                AudioAction::ResumeDevice
            } else {
                audio.phase = AudioPhase::Opening;
                AudioAction::OpenDevice
            }
        },
        (AudioPhase::Pausing, AudioEvent::DeviceSet) => {
            audio.rest();
            AudioAction::Done(LoopState::Sleep(PAUSE_SLEEP))
        },
        (AudioPhase::Resuming, AudioEvent::DeviceSet) => advance(audio),
        (AudioPhase::Opening, AudioEvent::DeviceOpened(format)) => open_output(audio, format),
        (AudioPhase::Opening, AudioEvent::DeviceFailed) => {
            audio.rest();
            AudioAction::Done(LoopState::Exit)
        },
        (AudioPhase::Flushing, AudioEvent::Flushed) => get_audio_source_frames(audio),
        (AudioPhase::Decoding, AudioEvent::Decoded { packet, consumed, frame }) => collect_decoded(
            audio,
            packet,
            consumed,
            frame,
        ),
        (AudioPhase::Decoding, AudioEvent::DecodeFailed) => {
            audio.rest();
            AudioAction::Done(LoopState::Exit)
        },
        (AudioPhase::Resampling, AudioEvent::Resampled { bytes: frame, pending }) => {
            audio.resampled_frames.push_back(frame);
            if !pending {
                assert(audio@ =~= (AudioModel {
                    resampled_frames: old(audio)@.resampled_frames.push(frame),
                    ..old(audio)@
                }));
                advance(audio)
            } else {
                match audio.output {
                    Some(target) => {
                        assert(final(audio)@ =~= audio_step(old(audio)@, event, paused).0);
                        AudioAction::FlushResampler { target }
                    },
                    None => {
                        audio.rest();
                        assert(final(audio)@ =~= audio_step(old(audio)@, event, paused).0);
                        AudioAction::Done(LoopState::Exit)
                    },
                }
            }
        },
        (AudioPhase::Resampling, AudioEvent::ResampleFailed) => {
            audio.rest();
            AudioAction::Done(LoopState::Exit)
        },
        _ => AudioAction::Done(LoopState::Exit),
    }
}

/// A packet whose bytes are all used and that gave no frame makes way for
/// the next queue entry in the same step: the worker does not sleep unless
/// the queue is empty.
pub proof fn lemma_barren_packet_moves_on<P, A>(
    m: AudioModel<P, A>,
    packet: Packet<P>,
    consumed: usize,
    frame: AudioFrame<A>,
    paused: bool,
)
    requires
        m.phase == AudioPhase::Decoding,
        m.decoded.len() == 0,
        frame.shape.format == SampleFormat::Missing,
        m.consumed + consumed == m.packet_size,
    ensures
        audio_step(m, AudioEvent::Decoded { packet, consumed, frame }, paused) == next_packet(
            at_rest(m),
        ),
        m.stream.queue.len() > 0 ==> !(audio_step(
            m,
            AudioEvent::Decoded { packet, consumed, frame },
            paused,
        ).1 is Done),
{
}

/// While bytes of a packet are left, the packet goes back to the decoder
/// exactly as the decoder returned it, with the offset moved on by what was
/// used, and its size stays on record.
pub proof fn lemma_packet_goes_back_untouched<P, A>(
    m: AudioModel<P, A>,
    packet: Packet<P>,
    consumed: usize,
    frame: AudioFrame<A>,
    paused: bool,
)
    requires
        m.phase == AudioPhase::Decoding,
        m.consumed + consumed < m.packet_size,
    ensures
        ({
            let (after, action) = audio_step(
                m,
                AudioEvent::Decoded { packet, consumed, frame },
                paused,
            );
            &&& action == AudioAction::<P, A>::Decode {
                packet,
                offset: (m.consumed + consumed) as usize,
            }
            &&& after.packet_size == m.packet_size
            &&& after.consumed == m.consumed + consumed
            &&& after.phase == AudioPhase::Decoding
        }),
{
}

/// Once a packet is used up nothing of it stays behind: the count of used
/// bytes is back at zero and no frame of it is held back.
pub proof fn lemma_used_packet_leaves_no_trace<P, A>(
    m: AudioModel<P, A>,
    packet: Packet<P>,
    consumed: usize,
    frame: AudioFrame<A>,
    paused: bool,
)
    requires
        m.phase == AudioPhase::Decoding,
        m.consumed + consumed == m.packet_size,
    ensures
        ({
            let after = audio_step(m, AudioEvent::Decoded { packet, consumed, frame }, paused).0;
            &&& after.consumed == 0
            &&& after.decoded.len() == 0
        }),
{
}

/// A ring within its limit stays within its limit, whatever the step.
pub proof fn lemma_ring_stays_within_limit<P, A>(
    m: AudioModel<P, A>,
    event: AudioEvent<P, A>,
    paused: bool,
)
    requires
        m.ring matches Some(ring) ==> ring.len() <= AUDIO_BUFFER_MAX,
    ensures
        audio_step(m, event, paused).0.ring matches Some(ring) ==> ring.len() <= AUDIO_BUFFER_MAX,
{
}

/// A resampled frame is never lost for want of room: where the ring cannot
/// take it, it is first in line again.
pub proof fn lemma_frame_waits_for_room<P, A>(m: AudioModel<P, A>, frame: Vec<u8>)
    requires
        m.ring matches Some(ring) && ring.len() + ring.sample_count(frame@) > AUDIO_BUFFER_MAX,
    ensures
        feed_ring(m, frame).1 == AudioAction::<P, A>::Done(LoopState::Sleep(QUEUE_FULL_SLEEP)),
        feed_ring(m, frame).0.resampled_frames == seq![frame] + m.resampled_frames,
        feed_ring(m, frame).0.ring == m.ring,
{
}

/// A flush marker reaches the decoder before any entry behind it.
pub proof fn lemma_flush_comes_first<P, A>(m: AudioModel<P, A>)
    requires
        m.stream.queue.len() > 0,
        m.stream.queue[0] is Flush,
    ensures
        next_packet(m).1 == AudioAction::<P, A>::FlushDecoder,
        next_packet(m).0.phase == AudioPhase::Flushing,
        next_packet(m).0.stream.queue == m.stream.queue.skip(1),
{
}

} // verus!
