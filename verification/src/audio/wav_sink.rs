//! The integer PCM encoder: what goes into the file, and when the encoder
//! still accepts audio.

use super::format::AudioFormat;
use super::sample::{quantize_chunk, quantized_seq};
use vstd::prelude::*;

verus! {

/// How the samples stand in the file.
#[derive(Clone, Copy, Debug, PartialEq, Eq, Structural)]
pub enum SampleFormat {
    /// As floating-point numbers.
    Float,
    /// As signed integers.
    Int,
}

/// Properties of the audio data in the file's header.
#[derive(Clone, Copy, Debug, PartialEq, Eq, Structural)]
pub struct WavSpec {
    pub channels: u16,
    pub sample_rate: u32,
    pub bits_per_sample: u16,
    pub sample_format: SampleFormat,
}

/// Why the encoder turned a request down.
#[derive(Clone, Copy, Debug, PartialEq, Eq, Structural)]
pub enum SinkError {
    /// The encoder was finalized before.
    Finalized,
}

/// Encoder for one recording.
///
/// It turns each chunk into the 16-bit samples to append to the file and
/// keeps track of whether the file has been closed. The file itself is
/// written by whoever owns the encoder.
pub struct WavSink {
    format: AudioFormat,
    finalized: bool,
    encoded: Ghost<Seq<i16>>,
}

impl WavSink {
    /// The header properties for a format: its rate and channels, sixteen
    /// bits per sample, signed integers.
    pub open spec fn spec_for(format: AudioFormat) -> WavSpec {
        WavSpec {
            channels: format.channels,
            sample_rate: format.sample_rate,
            bits_per_sample: AudioFormat::BITS_PER_SAMPLE,
            sample_format: SampleFormat::Int,
        }
    }

    /// The format the encoder was opened with.
    pub closed spec fn format(&self) -> AudioFormat {
        self.format
    }

    /// Whether the encoder has been finalized.
    pub closed spec fn is_finalized(&self) -> bool {
        self.finalized
    }

    /// Every sample handed out for the file so far, in file order.
    pub closed spec fn encoded(&self) -> Seq<i16> {
        self.encoded@
    }

    /// An open encoder with nothing encoded yet.
    pub fn new(format: AudioFormat) -> (sink: Self)
        ensures
            sink.format() == format,
            !sink.is_finalized(),
            sink.encoded() == Seq::<i16>::empty(),
    {
        WavSink { format, finalized: false, encoded: Ghost(Seq::empty()) }
    }

    /// The header properties of a file in the given format.
    pub fn spec_of(format: AudioFormat) -> (spec: WavSpec)
        ensures
            spec == Self::spec_for(format),
    {
        WavSpec {
            channels: format.channels,
            sample_rate: format.sample_rate,
            bits_per_sample: AudioFormat::BITS_PER_SAMPLE,
            sample_format: SampleFormat::Int,
        }
    }

    /// The header properties of the file.
    pub fn spec(&self) -> (spec: WavSpec)
        ensures
            spec == Self::spec_for(self.format()),
    {
        Self::spec_of(self.format)
    }

    /// Whether the encoder still accepts chunks.
    pub fn is_open(&self) -> (open: bool)
        ensures
            open == !self.is_finalized(),
    {
        !self.finalized
    }

    /// Encodes a chunk and returns the samples to append to the file.
    ///
    /// Fails exactly when the encoder has been finalized; nothing is encoded
    /// then.
    pub fn write_chunk(&mut self, samples: Vec<u32>) -> (r: Result<Vec<i16>, SinkError>)
        ensures
            final(self).format() == old(self).format(),
            final(self).is_finalized() == old(self).is_finalized(),
            old(self).is_finalized() ==> r == Err::<Vec<i16>, SinkError>(SinkError::Finalized)
                && final(self).encoded() == old(self).encoded(),
            !old(self).is_finalized() ==> r is Ok && r->Ok_0@ == quantized_seq(samples@)
                && final(self).encoded() == old(self).encoded() + quantized_seq(samples@),
    {
        if self.finalized {
            return Err(SinkError::Finalized);
        }
        let pcm = quantize_chunk(&samples);
        self.encoded = Ghost(self.encoded@ + pcm@);
        Ok(pcm)
    }

    /// Closes the encoder: from now on it accepts nothing.
    ///
    /// Fails exactly when the encoder was finalized before.
    pub fn finalize(&mut self) -> (r: Result<(), SinkError>)
        ensures
            final(self).format() == old(self).format(),
            final(self).is_finalized(),
            final(self).encoded() == old(self).encoded(),
            r is Err <==> old(self).is_finalized(),
            r is Err ==> r == Err::<(), SinkError>(SinkError::Finalized),
    {
        if self.finalized {
            return Err(SinkError::Finalized);
        }
        self.finalized = true;
        Ok(())
    }
}

} // verus!
