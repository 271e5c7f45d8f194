//! The bridge between the audio worker and the audio device: a ring of
//! samples that the worker fills and the device's pull-callback drains.

use vstd::prelude::*;
use std::collections::VecDeque;

verus! {

/// The smaller of two lengths.
pub open spec fn min_len(a: nat, b: nat) -> nat {
    if a <= b {
        a
    } else {
        b
    }
}

/// What a device that asks for `wanted` samples receives from `ring`: the
/// samples at the front of the ring, as many as there are, then silence.
pub open spec fn served<T>(ring: Seq<T>, wanted: nat, zero: T) -> Seq<T> {
    let n = min_len(wanted, ring.len());
    ring.take(n as int) + Seq::new((wanted - n) as nat, |i: int| zero)
}

/// What stays in `ring` once a device that asked for `wanted` samples was
/// served.
pub open spec fn left_over<T>(ring: Seq<T>, wanted: nat) -> Seq<T> {
    ring.skip(min_len(wanted, ring.len()) as int)
}

/// Fills `stream_buffer` from the front of `sample_buffer`, removes what was
/// copied, and pads with `zero` where the ring ran short. Returns the number
/// of samples that came from the ring.
pub fn copy_buffers<T: Copy>(
    stream_buffer: &mut [T],
    sample_buffer: &mut VecDeque<T>,
    zero: T,
) -> (len: usize)
    ensures
        len == min_len(old(stream_buffer)@.len(), old(sample_buffer)@.len()),
        final(stream_buffer)@ == served(old(sample_buffer)@, old(stream_buffer)@.len(), zero),
        final(sample_buffer)@ == left_over(old(sample_buffer)@, old(stream_buffer)@.len()),
{
    let wanted: usize = stream_buffer.len();
    let held: usize = sample_buffer.len();
    let len: usize = if wanted <= held { wanted } else { held };
    let ghost ring = sample_buffer@;
    let mut i: usize = 0;
    while i < len
        invariant
            i <= len,
            len <= wanted,
            len <= ring.len(),
            stream_buffer@.len() == wanted,
            sample_buffer@ == ring.skip(i as int),
            forall|k: int| 0 <= k < i ==> stream_buffer@[k] == ring[k],
        decreases len - i,
    {
        let front = sample_buffer.pop_front();
        match front {
            Some(sample) => {
                stream_buffer[i] = sample;
            },
            None => {},
        }
        assert(sample_buffer@ == ring.skip(i as int + 1));
        i = i + 1;
    }
    let mut j: usize = len;
    while j < wanted
        invariant
            len <= j <= wanted,
            stream_buffer@.len() == wanted,
            forall|k: int| 0 <= k < len ==> stream_buffer@[k] == ring[k],
            forall|k: int| len <= k < j ==> stream_buffer@[k] == zero,
        decreases wanted - j,
    {
        stream_buffer[j] = zero;
        j = j + 1;
    }
    assert(stream_buffer@ =~= served(ring, wanted as nat, zero));
    len
}

/// Samples that wait for the audio device, in the device's element type.
#[derive(Debug, PartialEq)]
#[allow(inconsistent_fields)]
pub enum SampleBuffer {
    /// Signed 16-bit samples.
    I16 { buffer: VecDeque<i16> },
    /// 32-bit floating-point samples, each held as its IEEE 754 bit pattern.
    F32 { buffer: VecDeque<u32> },
}

/// A signed 16-bit sample from its two bytes, low byte first.
pub open spec fn i16_from_le(low: u8, high: u8) -> i16 {
    let v = low + 256 * high;
    if v >= 32768 {
        (v - 65536) as i16
    } else {
        v as i16
    }
}

/// A 32-bit pattern from its four bytes, lowest byte first.
pub open spec fn u32_from_le(b0: u8, b1: u8, b2: u8, b3: u8) -> u32 {
    (b0 + 256 * b1 + 65536 * b2 + 16777216 * b3) as u32
}

/// The signed 16-bit samples in `bytes`: one for every two bytes, a
/// trailing odd byte left out.
pub open spec fn i16_samples_of(bytes: Seq<u8>) -> Seq<i16> {
    Seq::new(bytes.len() / 2, |i: int| i16_from_le(bytes[2 * i], bytes[2 * i + 1]))
}

/// The 32-bit samples in `bytes`: one for every four bytes, trailing
/// bytes that do not fill a sample left out.
pub open spec fn f32_samples_of(bytes: Seq<u8>) -> Seq<u32> {
    Seq::new(
        bytes.len() / 4,
        |i: int| u32_from_le(bytes[4 * i], bytes[4 * i + 1], bytes[4 * i + 2], bytes[4 * i + 3]),
    )
}

/// A ring as plain values: the waiting samples, oldest first.
#[verifier::ext_equal]
pub enum RingModel {
    I16(Seq<i16>),
    F32(Seq<u32>),
}

impl RingModel {
    /// Number of samples that wait.
    pub open spec fn len(self) -> nat {
        match self {
            RingModel::I16(samples) => samples.len(),
            RingModel::F32(samples) => samples.len(),
        }
    }

    /// Number of samples of this ring's element type that `bytes` hold.
    pub open spec fn sample_count(self, bytes: Seq<u8>) -> nat {
        match self {
            RingModel::I16(_) => bytes.len() / 2,
            RingModel::F32(_) => bytes.len() / 4,
        }
    }

    /// The ring with the samples in `bytes` added at its end.
    pub open spec fn extended(self, bytes: Seq<u8>) -> RingModel {
        match self {
            RingModel::I16(samples) => RingModel::I16(samples + i16_samples_of(bytes)),
            RingModel::F32(samples) => RingModel::F32(samples + f32_samples_of(bytes)),
        }
    }
}

impl View for SampleBuffer {
    type V = RingModel;

    open spec fn view(&self) -> RingModel {
        match self {
            SampleBuffer::I16 { buffer } => RingModel::I16(buffer@),
            SampleBuffer::F32 { buffer } => RingModel::F32(buffer@),
        }
    }
}

impl SampleBuffer {
    /// Number of samples that wait.
    pub open spec fn spec_len(&self) -> nat {
        match self {
            SampleBuffer::I16 { buffer } => buffer@.len(),
            SampleBuffer::F32 { buffer } => buffer@.len(),
        }
    }

    /// The waiting samples of a 16-bit ring.
    pub open spec fn i16_samples(&self) -> Seq<i16> {
        match self {
            SampleBuffer::I16 { buffer } => buffer@,
            SampleBuffer::F32 { .. } => Seq::empty(),
        }
    }

    /// The waiting samples of a floating-point ring, as bit patterns.
    pub open spec fn f32_samples(&self) -> Seq<u32> {
        match self {
            SampleBuffer::I16 { .. } => Seq::empty(),
            SampleBuffer::F32 { buffer } => buffer@,
        }
    }

    /// An empty ring of signed 16-bit samples.
    pub fn new_i16() -> (ring: SampleBuffer)
        ensures
            ring is I16,
            ring.i16_samples() == Seq::<i16>::empty(),
    {
        SampleBuffer::I16 { buffer: VecDeque::new() }
    }

    /// An empty ring of floating-point samples.
    pub fn new_f32() -> (ring: SampleBuffer)
        ensures
            ring is F32,
            ring.f32_samples() == Seq::<u32>::empty(),
    {
        SampleBuffer::F32 { buffer: VecDeque::new() }
    }

    /// Whether the samples in `bytes` can join the ring without the ring
    /// growing beyond `limit` samples.
    pub fn has_room_for(&self, bytes: &Vec<u8>, limit: usize) -> (room: bool)
        ensures
            room == (self@.len() + self@.sample_count(bytes@) <= limit),
    {
        let (held, coming): (usize, usize) = match self {
            SampleBuffer::I16 { buffer } => (buffer.len(), bytes.len() / 2),
            SampleBuffer::F32 { buffer } => (buffer.len(), bytes.len() / 4),
        };
        coming <= limit && held <= limit - coming
    }

    /// Adds the samples in `bytes` at the end of the ring.
    pub fn extend_from_bytes(&mut self, bytes: &Vec<u8>)
        ensures
            final(self)@ == old(self)@.extended(bytes@),
    {
        match self {
            SampleBuffer::I16 { buffer } => {
                let ghost before = buffer@;
                let total: usize = bytes.len();
                let count: usize = total / 2;
                let mut i: usize = 0;
                while i < count
                    invariant
                        i <= count,
                        total == bytes@.len(),
                        count == total / 2,
                        buffer@ == before + i16_samples_of(bytes@).take(i as int),
                    decreases count - i,
                {
                    let low: u8 = bytes[2 * i];
                    let high: u8 = bytes[2 * i + 1];
                    let v: u16 = low as u16 + 256 * (high as u16);
                    let sample: i16 = if v >= 32768 {
                        (v as i32 - 65536) as i16
                    } else {
                        v as i16
                    };
                    buffer.push_back(sample);
                    assert(i16_samples_of(bytes@).take(i as int + 1) =~= i16_samples_of(
                        bytes@,
                    ).take(i as int).push(sample));
                    i = i + 1;
                }
                assert(i16_samples_of(bytes@).take(count as int) =~= i16_samples_of(bytes@));
            },
            SampleBuffer::F32 { buffer } => {
                let ghost before = buffer@;
                let total: usize = bytes.len();
                let count: usize = total / 4;
                let mut i: usize = 0;
                while i < count
                    invariant
                        i <= count,
                        total == bytes@.len(),
                        count == total / 4,
                        buffer@ == before + f32_samples_of(bytes@).take(i as int),
                    decreases count - i,
                {
                    let b0: u32 = bytes[4 * i] as u32;
                    let b1: u32 = bytes[4 * i + 1] as u32;
                    let b2: u32 = bytes[4 * i + 2] as u32;
                    let b3: u32 = bytes[4 * i + 3] as u32;
                    let sample: u32 = b0 + 256 * b1 + 65536 * b2 + 16777216 * b3;
                    buffer.push_back(sample);
                    assert(f32_samples_of(bytes@).take(i as int + 1) =~= f32_samples_of(
                        bytes@,
                    ).take(i as int).push(sample));
                    i = i + 1;
                }
                assert(f32_samples_of(bytes@).take(count as int) =~= f32_samples_of(bytes@));
            },
        }
    }

    /// Number of samples that wait.
    pub fn len(&self) -> (n: usize)
        ensures
            n == self.spec_len(),
    {
        match self {
            SampleBuffer::I16 { buffer } => buffer.len(),
            SampleBuffer::F32 { buffer } => buffer.len(),
        }
    }
}

/// The buffer that the audio device hands to its pull-callback.
pub enum StreamBuffer<'a> {
    /// A capture buffer: nothing to fill.
    Input,
    /// Room for unsigned 16-bit samples.
    OutputU16(&'a mut [u16]),
    /// Room for signed 16-bit samples.
    OutputI16(&'a mut [i16]),
    /// Room for 32-bit floating-point samples, as IEEE 754 bit patterns.
    OutputF32(&'a mut [u32]),
}

/// The device's pull-callback. Where the device asks for the element type
/// that the ring holds, the request is served from the ring and padded with
/// silence; in every other case neither side is touched.
pub fn buffer_callback(stream_data: StreamBuffer<'_>, sample_buffer: &mut Option<SampleBuffer>)
    ensures
        match (stream_data, *old(sample_buffer)) {
            (StreamBuffer::OutputI16(out), Some(SampleBuffer::I16 { buffer })) => {
                &&& final(out)@ == served(buffer@, out@.len(), 0i16)
                &&& *final(sample_buffer) matches Some(SampleBuffer::I16 { buffer: rest })
                &&& rest@ == left_over(buffer@, out@.len())
            },
            (StreamBuffer::OutputF32(out), Some(SampleBuffer::F32 { buffer })) => {
                &&& final(out)@ == served(buffer@, out@.len(), 0u32)
                &&& *final(sample_buffer) matches Some(SampleBuffer::F32 { buffer: rest })
                &&& rest@ == left_over(buffer@, out@.len())
            },
            (StreamBuffer::OutputI16(out), _) => {
                &&& final(out)@ == out@
                &&& *final(sample_buffer) == *old(sample_buffer)
            },
            (StreamBuffer::OutputF32(out), _) => {
                &&& final(out)@ == out@
                &&& *final(sample_buffer) == *old(sample_buffer)
            },
            (StreamBuffer::OutputU16(out), _) => {
                &&& final(out)@ == out@
                &&& *final(sample_buffer) == *old(sample_buffer)
            },
            (StreamBuffer::Input, _) => *final(sample_buffer) == *old(sample_buffer),
        },
{
    match sample_buffer {
        Some(SampleBuffer::I16 { buffer }) => {
            match stream_data {
                StreamBuffer::OutputI16(out) => {
                    copy_buffers(out, buffer, 0i16);
                },
                _ => {},
            }
        },
        Some(SampleBuffer::F32 { buffer }) => {
            match stream_data {
                StreamBuffer::OutputF32(out) => {
                    copy_buffers(out, buffer, 0u32);
                },
                _ => {},
            }
        },
        None => {},
    }
}

/// A device that asks for more than the ring holds gets all of the ring,
/// in order, then silence up to what it asked for, and the ring is left empty.
pub proof fn lemma_underrun<T>(ring: Seq<T>, wanted: nat, zero: T)
    requires
        ring.len() < wanted,
    ensures
        served(ring, wanted, zero).len() == wanted,
        forall|i: int| 0 <= i < ring.len() ==> served(ring, wanted, zero)[i] == ring[i],
        forall|i: int| ring.len() <= i < wanted ==> served(ring, wanted, zero)[i] == zero,
        left_over(ring, wanted) == Seq::<T>::empty(),
{
    assert(left_over(ring, wanted) =~= Seq::<T>::empty());
}

/// A device that asks for no more than the ring holds gets exactly the front
/// of the ring, and the rest stays, in order.
pub proof fn lemma_no_underrun<T>(ring: Seq<T>, wanted: nat, zero: T)
    requires
        wanted <= ring.len(),
    ensures
        served(ring, wanted, zero) == ring.take(wanted as int),
        served(ring, wanted, zero) + left_over(ring, wanted) == ring,
{
    assert(served(ring, wanted, zero) =~= ring.take(wanted as int));
    assert(served(ring, wanted, zero) + left_over(ring, wanted) =~= ring);
}

} // verus!
