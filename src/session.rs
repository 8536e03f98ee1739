//! Parameters that the media session is set up with.
use vstd::prelude::*;

verus! {

/// Payload type and format parameters of each H.264 profile offered to the
/// peer, in order of preference.
pub fn h264_codecs() -> (r: Vec<(u8, &'static str)>)
    ensures
        r@.len() == 5,
        r@[0].0 == 102 && r@[0].1@
            == "level-asymmetry-allowed=1;packetization-mode=1;profile-level-id=42001f"@,
        r@[1].0 == 127 && r@[1].1@
            == "level-asymmetry-allowed=1;packetization-mode=0;profile-level-id=42001f"@,
        r@[2].0 == 125 && r@[2].1@
            == "level-asymmetry-allowed=1;packetization-mode=1;profile-level-id=42e01f"@,
        r@[3].0 == 108 && r@[3].1@
            == "level-asymmetry-allowed=1;packetization-mode=0;profile-level-id=42e01f"@,
        r@[4].0 == 123 && r@[4].1@
            == "level-asymmetry-allowed=1;packetization-mode=1;profile-level-id=640032"@,
{
    let mut r: Vec<(u8, &'static str)> = Vec::new();
    r.push((102, "level-asymmetry-allowed=1;packetization-mode=1;profile-level-id=42001f"));
    r.push((127, "level-asymmetry-allowed=1;packetization-mode=0;profile-level-id=42001f"));
    r.push((125, "level-asymmetry-allowed=1;packetization-mode=1;profile-level-id=42e01f"));
    r.push((108, "level-asymmetry-allowed=1;packetization-mode=0;profile-level-id=42e01f"));
    r.push((123, "level-asymmetry-allowed=1;packetization-mode=1;profile-level-id=640032"));
    r
}

/// Payload type of the Opus codec.
pub const OPUS_PAYLOAD_TYPE: u8 = 111;

/// Sample rate, in Hz, of received audio.
pub const RECEIVE_SAMPLE_RATE: u32 = 48000;

/// RTP clock rate, in Hz, of H.264 video.
pub const H264_CLOCK_RATE: u32 = 90000;

/// Nanoseconds between frames at `fps` frames per second: the nominal
/// duration given to each unit sent.
pub fn frame_interval_ns(fps: u32) -> (r: u64)
    requires
        fps > 0,
    ensures
        r == 1_000_000_000int / fps as int,
{
    1_000_000_000u64 / (fps as u64)
}

} // verus!
