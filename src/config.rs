use vstd::prelude::*;

use crate::error::RecorderError;

verus! {

/// The sample format that an input device reports for its default configuration.
#[derive(Clone, Copy, Debug, PartialEq, Eq, Structural)]
pub enum SampleFormat {
    I8,
    I16,
    I32,
    I64,
    U8,
    U16,
    U32,
    U64,
    F32,
    F64,
    /// A format that the host knows and this library does not name.
    Other,
}

/// How the samples of the output file are encoded.
#[derive(Clone, Copy, Debug, PartialEq, Eq, Structural)]
pub enum SampleEncoding {
    Int,
    Float,
}

/// The configuration a session captures with, fixed for the session's lifetime.
#[derive(Clone, Copy, Debug, PartialEq, Eq, Structural)]
pub struct StreamConfig {
    pub channels: u16,
    pub sample_rate: u32,
    pub sample_format: SampleFormat,
}

/// The header of the output file: what the encoder is opened with.
#[derive(Clone, Copy, Debug, PartialEq, Eq, Structural)]
pub struct EncodingSpec {
    pub channels: u16,
    pub sample_rate: u32,
    pub bits_per_sample: u16,
    pub encoding: SampleEncoding,
}

/// Only 16-bit integer and 32-bit float samples are captured end to end.
pub open spec fn is_supported(f: SampleFormat) -> bool {
    f == SampleFormat::I16 || f == SampleFormat::F32
}

/// The bit depth of a sample of a supported format.
pub open spec fn bits_of(f: SampleFormat) -> u16 {
    if f == SampleFormat::I16 {
        16
    } else {
        32
    }
}

/// The encoding of a sample of a supported format.
pub open spec fn encoding_of(f: SampleFormat) -> SampleEncoding {
    if f == SampleFormat::I16 {
        SampleEncoding::Int
    } else {
        SampleEncoding::Float
    }
}

/// What negotiation yields for a device's default channel count, rate and format.
pub open spec fn negotiated(channels: u16, sample_rate: u32, format: SampleFormat) -> Result<
    StreamConfig,
    RecorderError,
> {
    if is_supported(format) {
        Ok(StreamConfig { channels, sample_rate, sample_format: format })
    } else {
        Err(RecorderError::UnsupportedFormat)
    }
}

/// The file header that matches a stream configuration field for field.
pub open spec fn spec_for(config: StreamConfig) -> EncodingSpec {
    EncodingSpec {
        channels: config.channels,
        sample_rate: config.sample_rate,
        bits_per_sample: bits_of(config.sample_format),
        encoding: encoding_of(config.sample_format),
    }
}

impl SampleFormat {
    /// Whether samples of this format can be captured and written.
    pub fn is_supported(&self) -> (r: bool)
        ensures
            r == is_supported(*self),
    {
        match self {
            SampleFormat::I16 | SampleFormat::F32 => true,
            _ => false,
        }
    }
}

/// Fixes the stream configuration from what the device reports as its default.
pub fn negotiate(channels: u16, sample_rate: u32, format: SampleFormat) -> (r: Result<
    StreamConfig,
    RecorderError,
>)
    ensures
        r == negotiated(channels, sample_rate, format),
        r is Ok <==> is_supported(format),
{
    if format.is_supported() {
        Ok(StreamConfig { channels, sample_rate, sample_format: format })
    } else {
        Err(RecorderError::UnsupportedFormat)
    }
}

impl StreamConfig {
    /// The header the output file is written with for this configuration.
    pub fn encoding_spec(&self) -> (r: EncodingSpec)
        requires
            is_supported(self.sample_format),
        ensures
            r == spec_for(*self),
            r.channels == self.channels,
            r.sample_rate == self.sample_rate,
    {
        let (bits_per_sample, encoding) = match self.sample_format {
            SampleFormat::I16 => (16u16, SampleEncoding::Int),
            _ => (32u16, SampleEncoding::Float),
        };
        EncodingSpec {
            channels: self.channels,
            sample_rate: self.sample_rate,
            bits_per_sample,
            encoding,
        }
    }
}

/// A negotiated configuration yields a header with the same channel count and rate, and
/// with the bit depth and encoding of its sample format.
pub proof fn lemma_header_matches_config(channels: u16, sample_rate: u32, format: SampleFormat)
    requires
        is_supported(format),
    ensures
        negotiated(channels, sample_rate, format) is Ok,
        ({
            let h = spec_for(negotiated(channels, sample_rate, format)->Ok_0);
            &&& h.channels == channels
            &&& h.sample_rate == sample_rate
            &&& format == SampleFormat::I16 ==> h.bits_per_sample == 16 && h.encoding
                == SampleEncoding::Int
            &&& format == SampleFormat::F32 ==> h.bits_per_sample == 32 && h.encoding
                == SampleEncoding::Float
        }),
{
}

} // verus!
