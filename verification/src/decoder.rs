//! The decoder of a stream: either a video decoder or an audio decoder.

use vstd::prelude::*;

verus! {

/// A stream's decoder, of the kind that fits the stream.
pub enum Decoder<V, A> {
    Video(V),
    Audio(A),
}

impl<V, A> Decoder<V, A> {
    /// Wraps a video decoder.
    pub fn new_video(d: V) -> (decoder: Self)
        ensures
            decoder == Decoder::<V, A>::Video(d),
    {
        Decoder::Video(d)
    }

    /// The video decoder inside. To ask an audio decoder for it is a
    /// programming error.
    pub fn as_video(&mut self) -> (d: &mut V)
        requires
            *old(self) is Video,
        ensures
            *d == (*old(self))->Video_0,
            *final(self) == Decoder::<V, A>::Video(*final(d)),
    {
        match self {
            Decoder::Video(d) => d,
            Decoder::Audio(_) => vstd::pervasive::unreached(),
        }
    }

    /// Wraps an audio decoder.
    pub fn new_audio(d: A) -> (decoder: Self)
        ensures
            decoder == Decoder::<V, A>::Audio(d),
    {
        Decoder::Audio(d)
    }

    /// The audio decoder inside. To ask a video decoder for it is a
    /// programming error.
    pub fn as_audio(&mut self) -> (d: &mut A)
        requires
            *old(self) is Audio,
        ensures
            *d == (*old(self))->Audio_0,
            *final(self) == Decoder::<V, A>::Audio(*final(d)),
    {
        match self {
            Decoder::Video(_) => vstd::pervasive::unreached(),
            Decoder::Audio(d) => d,
        }
    }
}

} // verus!
