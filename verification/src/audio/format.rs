//! The format descriptor shared by every stage of the pipeline.

use vstd::prelude::*;

verus! {

/// Sample rate and channel count of a recording.
///
/// The sample representation on disk is fixed: 16-bit signed integer PCM.
#[derive(Debug, Clone, Copy)]
pub struct AudioFormat {
    pub sample_rate: u32,
    pub channels: u16,
}

/// Milliseconds of audio the ring buffer can hold.
pub const RING_MILLIS: u32 = 60_000;

/// Nominal duration of one chunk, in milliseconds.
pub const CHUNK_MILLIS: u32 = 500;

/// The largest ring buffer that can be allocated: its samples, four bytes
/// each, must fit half the address space.
pub open spec fn max_ring_capacity() -> int {
    (usize::MAX as int) / 8
}

impl AudioFormat {
    pub const BITS_PER_SAMPLE: u16 = 16;

    /// Bytes that one sample takes in the file.
    pub const BYTES_PER_SAMPLE: u16 = 2;

    /// A format that a recording can be made in: at least one sample per
    /// second on at least one channel; a byte rate that fits the 32 bits it
    /// has in the file's header; and a ring buffer that can be allocated.
    pub open spec fn spec_is_valid(&self) -> bool {
        &&& self.sample_rate > 0
        &&& self.channels > 0
        &&& self.sample_rate * self.channels * Self::BYTES_PER_SAMPLE <= u32::MAX
        &&& self.spec_samples_for_duration(RING_MILLIS) <= max_ring_capacity()
    }

    /// Whether a recording can be made in this format.
    #[verifier::when_used_as_spec(spec_is_valid)]
    pub fn is_valid(&self) -> (valid: bool)
        ensures
            valid == self.spec_is_valid(),
    {
        if self.sample_rate == 0 || self.channels == 0 {
            return false;
        }
        assert(self.sample_rate as int * self.channels as int * 2 <= 0xffff_ffff * 0xffff * 2)
            by (nonlinear_arith)
            requires
                0 <= self.sample_rate <= 0xffff_ffff,
                0 <= self.channels <= 0xffff,
        ;
        let byte_rate: u64 = (self.sample_rate as u64) * (self.channels as u64) * 2;
        let ring: u64 = (self.sample_rate as u64) * 60;
        assert(ring == self.spec_samples_for_duration(RING_MILLIS)) by {
            assert((self.sample_rate as int * 60_000) / 1000 == self.sample_rate as int * 60);
        }
        byte_rate <= u32::MAX as u64 && ring <= (usize::MAX / 8) as u64
    }

    /// Number of samples in `millis` milliseconds, rounded down.
    pub open spec fn spec_samples_for_duration(&self, millis: u32) -> int {
        (self.sample_rate as int * millis as int) / 1000
    }

    /// Number of samples in `millis` milliseconds of audio, rounded down.
    pub fn samples_for_duration(&self, millis: u32) -> (n: usize)
        requires
            self.spec_samples_for_duration(millis) <= usize::MAX,
        ensures
            n == self.spec_samples_for_duration(millis),
    {
        assert(self.sample_rate as int * millis as int <= 0xffff_ffff * 0xffff_ffff) by (nonlinear_arith)
            requires
                self.sample_rate <= 0xffff_ffff,
                millis <= 0xffff_ffff,
        ;
        let product: u64 = (self.sample_rate as u64) * (millis as u64);
        (product / 1000) as usize
    }
}

impl Default for AudioFormat {
    fn default() -> (format: Self)
        ensures
            format.sample_rate == 16000,
            format.channels == 1,
    {
        Self { sample_rate: 16000, channels: 1 }
    }
}

} // verus!
