//! What the workers read of a decoded frame, beside the frame itself: sizes,
//! formats, rates and timestamps, as plain values.

use vstd::prelude::*;
use vstd::string::to_string_from_display_ensures;
use vstd::string::StringExecFns;

verus! {

/// How the pixels of a picture are laid out.
#[derive(Clone, Copy, Debug, PartialEq, Eq, Structural)]
pub enum PixelFormat {
    /// No format: the decoder has not produced a picture yet.
    Missing,
    /// Four bytes a pixel: red, green, blue, alpha.
    Rgba,
    /// Any other layout, by the decoder's own number for it.
    Other(i32),
}

/// A decoded or scaled picture: what the video worker reads of it, and the
/// picture itself, which the worker only passes on.
#[derive(Debug, PartialEq)]
pub struct VideoFrame<F> {
    pub width: u32,
    pub height: u32,
    pub format: PixelFormat,
    /// Presentation timestamp in ticks of the stream's time base.
    pub pts: Option<i64>,
    pub data: F,
}

/// Whether the samples of all channels share one plane or have one each.
#[derive(Clone, Copy, Debug, PartialEq, Eq, Structural)]
pub enum SampleType {
    Packed,
    Planar,
}

/// The element type of decoded audio.
#[derive(Clone, Copy, Debug, PartialEq, Eq, Structural)]
pub enum SampleFormat {
    /// No format: the decoder has not produced a frame.
    Missing,
    U8(SampleType),
    I16(SampleType),
    I32(SampleType),
    I64(SampleType),
    F32(SampleType),
    F64(SampleType),
}

/// A set of speaker positions, one bit each.
#[derive(Clone, Copy, Debug, PartialEq, Eq, Structural)]
pub struct ChannelLayout {
    pub bits: u64,
}

/// Bit of the front left speaker.
pub const FRONT_LEFT: u64 = 0x1;

/// Bit of the front right speaker.
pub const FRONT_RIGHT: u64 = 0x2;

/// Bit of the front centre speaker.
pub const FRONT_CENTER: u64 = 0x4;

/// Format, channel layout and sampling rate of a run of audio.
#[derive(Clone, Copy, Debug, PartialEq, Eq, Structural)]
pub struct AudioShape {
    pub format: SampleFormat,
    pub channel_layout: ChannelLayout,
    pub rate: u32,
}

/// A decoded block of audio: its shape, and the block itself, which the
/// audio worker only passes on.
#[derive(Debug, PartialEq)]
pub struct AudioFrame<A> {
    pub shape: AudioShape,
    pub data: A,
}

/// The element type that an audio device asks for.
#[derive(Clone, Copy, Debug, PartialEq, Eq, Structural)]
pub enum DeviceSampleFormat {
    I16,
    U16,
    F32,
}

/// The format of an audio device's output stream.
#[derive(Clone, Copy, Debug, PartialEq, Eq, Structural)]
pub struct DeviceFormat {
    pub channels: u16,
    pub sample_rate: u32,
    pub data_type: DeviceSampleFormat,
}

/// Why a device format cannot be served.
#[derive(Clone, Copy, Debug, PartialEq, Eq, Structural)]
pub enum FormatError {
    /// The device wants unsigned 16-bit samples.
    UnsupportedSampleFormat,
    /// The device has this many channels, neither one nor two.
    UnsupportedChannels(u16),
}

impl FormatError {
    /// The error in words. A channel count is written as its type writes it.
    pub fn message(&self) -> (text: String)
        ensures
            match *self {
                FormatError::UnsupportedSampleFormat => text@ == "Unsupported sample format U16!"@,
                FormatError::UnsupportedChannels(channels) => exists|count: String|
                    {
                        &&& to_string_from_display_ensures::<u16>(&channels, count)
                        &&& text@ == "Unsupported number of channels: "@ + count@ + "!"@
                    },
            },
    {
        match *self {
            FormatError::UnsupportedSampleFormat => String::from_str(
                "Unsupported sample format U16!",
            ),
            FormatError::UnsupportedChannels(channels) => {
                let count = channels.to_string();
                String::from_str("Unsupported number of channels: ").concat(count.as_str()).concat(
                    "!",
                )
            },
        }
    }
}

/// The format that resampled audio must have to suit the device.
#[derive(Clone, Copy, Debug, PartialEq, Eq, Structural)]
pub struct OutputFormat {
    pub format: SampleFormat,
    pub channel_layout: ChannelLayout,
    pub rate: u32,
}

impl OutputFormat {
    /// The resampler target for a device format: packed samples of the
    /// device's element type, at the device's rate, centre for one channel and
    /// left and right for two.
    pub open spec fn target_of(format: DeviceFormat) -> Result<OutputFormat, FormatError> {
        if format.data_type == DeviceSampleFormat::U16 {
            Err(FormatError::UnsupportedSampleFormat)
        } else if format.channels != 1 && format.channels != 2 {
            Err(FormatError::UnsupportedChannels(format.channels))
        } else {
            Ok(
                OutputFormat {
                    format: if format.data_type == DeviceSampleFormat::F32 {
                        SampleFormat::F32(SampleType::Packed)
                    } else {
                        SampleFormat::I16(SampleType::Packed)
                    },
                    channel_layout: ChannelLayout {
                        bits: if format.channels == 1 {
                            0x4
                        } else {
                            0x3
                        },
                    },
                    rate: format.sample_rate,
                },
            )
        }
    }

    /// Derives the resampler target from the device's format. Unsigned
    /// 16-bit samples are refused, and so is any channel count but one or two;
    /// the sample format is looked at first.
    pub fn try_from(format: &DeviceFormat) -> (target: Result<OutputFormat, FormatError>)
        ensures
            target == Self::target_of(*format),
    {
        let dst_format = match format.data_type {
            DeviceSampleFormat::F32 => SampleFormat::F32(SampleType::Packed),
            DeviceSampleFormat::I16 => SampleFormat::I16(SampleType::Packed),
            DeviceSampleFormat::U16 => {
                return Err(FormatError::UnsupportedSampleFormat);
            },
        };
        let bits: u64 = if format.channels == 1 {
            FRONT_CENTER
        } else if format.channels == 2 {
            assert(0x1u64 | 0x2u64 == 0x3u64) by (bit_vector);
            FRONT_LEFT | FRONT_RIGHT
        } else {
            return Err(FormatError::UnsupportedChannels(format.channels));
        };
        Ok(
            OutputFormat {
                format: dst_format,
                channel_layout: ChannelLayout { bits },
                rate: format.sample_rate,
            },
        )
    }
}

} // verus!
