//! The audio capture layer's plain data and sizing. The stream itself,
//! the ring buffer of samples and resampling run in the application.

use vstd::prelude::*;

verus! {

/// The capture device's native format.
#[derive(Debug, Clone, Copy, PartialEq, Eq, Structural)]
pub struct StreamInfo {
    pub sample_rate: u32,
    pub channels: u16,
}

/// Seconds of audio the capture ring buffer holds: headroom past the
/// two-minute cap on a recording.
pub const CAPTURE_HEADROOM_SECS: u64 = 130;

/// The channel count buffers are sized for: a device reporting no
/// channels counts as mono.
pub open spec fn effective_channels(info: StreamInfo) -> int {
    if info.channels == 0 {
        1
    } else {
        info.channels as int
    }
}

/// The capture ring buffer's capacity in samples, sized for this device's
/// actual rate and channel count.
pub open spec fn spec_ring_capacity(info: StreamInfo) -> int {
    info.sample_rate * effective_channels(info) * CAPTURE_HEADROOM_SECS
}

pub fn ring_capacity(info: StreamInfo) -> (r: usize)
    requires
        spec_ring_capacity(info) <= usize::MAX,
    ensures
        r == spec_ring_capacity(info),
{
    let channels: u64 = if info.channels == 0 {
        1
    } else {
        info.channels as u64
    };
    assert(info.sample_rate * channels <= 0xffff_ffff * 0xffff) by (nonlinear_arith)
        requires
            info.sample_rate <= 0xffff_ffff,
            channels <= 0xffff,
    ;
    let per_second: u64 = info.sample_rate as u64 * channels;
    assert(per_second * CAPTURE_HEADROOM_SECS <= usize::MAX);
    (per_second * CAPTURE_HEADROOM_SECS) as usize
}

/// The pill's audio-level updates are throttled to about 30 Hz: emitting
/// per capture buffer floods the channel to the pill and gains nothing
/// visible.
pub const LEVEL_EMIT_INTERVAL_MS: u64 = 33;

/// Whether a level reading is forwarded to the pill, given the whole
/// milliseconds elapsed since the last one that was.
pub fn level_emit_due(elapsed_ms: u64) -> (r: bool)
    ensures
        r == (elapsed_ms >= LEVEL_EMIT_INTERVAL_MS),
{
    elapsed_ms >= LEVEL_EMIT_INTERVAL_MS
}

/// The ring buffer holds `CAPTURE_HEADROOM_SECS` seconds of the device's
/// interleaved audio, whatever its channel count: `sample_rate` samples per
/// channel per second, and a device reporting no channels counts as one.
pub proof fn lemma_ring_holds_headroom_of_every_channel(info: StreamInfo)
    ensures
        info.channels >= 1 ==> spec_ring_capacity(info) == info.sample_rate * info.channels
            * CAPTURE_HEADROOM_SECS,
        info.channels == 0 ==> spec_ring_capacity(info) == info.sample_rate * CAPTURE_HEADROOM_SECS,
{
}

/// Capacity grows in proportion to the channel count: `c` channels get
/// `c` times the room of one.
pub proof fn lemma_ring_scales_with_channels(sample_rate: u32, channels: u16)
    requires
        channels >= 1,
    ensures
        spec_ring_capacity(StreamInfo { sample_rate, channels }) == channels * spec_ring_capacity(
            StreamInfo { sample_rate, channels: 1 },
        ),
{
    assert(sample_rate * channels * CAPTURE_HEADROOM_SECS == channels * (sample_rate * 1
        * CAPTURE_HEADROOM_SECS)) by (nonlinear_arith);
}

} // verus!
