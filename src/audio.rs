//! Sizes and durations of monaural audio frames.
use vstd::prelude::*;

verus! {

/// Samples in one capture frame of `frame_ms` milliseconds at `sample_rate` Hz.
pub fn capture_buffer_samples(sample_rate: u32, frame_ms: u32) -> (r: u64)
    ensures
        r == sample_rate as int * frame_ms as int / 1000,
{
    proof {
        assert(sample_rate as int * frame_ms as int <= u32::MAX as int * u32::MAX as int) by (nonlinear_arith);
    }
    (sample_rate as u64) * (frame_ms as u64) / 1000
}

/// Bytes set aside for one encoded frame of `frame_ms` milliseconds at
/// `bit_rate` bits per second.
pub fn encoded_buffer_bytes(bit_rate: u32, frame_ms: u32) -> (r: u64)
    requires
        1 <= frame_ms <= 1000,
    ensures
        r == bit_rate as int / 8 / (1000int / frame_ms as int),
{
    let frames_per_second: u64 = 1000 / frame_ms as u64;
    assert(frames_per_second >= 1) by (nonlinear_arith)
        requires
            frames_per_second == 1000int / frame_ms as int,
            1 <= frame_ms <= 1000,
    ;
    (bit_rate as u64) / 8 / frames_per_second
}

/// Samples held by the playback buffer: 40 milliseconds at `sample_rate` Hz.
pub fn playback_buffer_samples(sample_rate: u32) -> (r: u64)
    ensures
        r == sample_rate as int * 40 / 1000,
{
    (sample_rate as u64) * 40 / 1000
}

/// Whole milliseconds that `samples` samples last at `sample_rate` Hz.
pub fn frame_duration_ms(samples: u64, sample_rate: u32) -> (r: u64)
    requires
        sample_rate > 0,
        samples <= u64::MAX / 1000,
    ensures
        r == samples as int * 1000 / sample_rate as int,
{
    samples * 1000 / (sample_rate as u64)
}

} // verus!
