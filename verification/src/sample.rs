//! Quantized-sample handling: clamping into the 32-bit signed sample range,
//! interleaving stereo frames, and the fixed output-format parameters.

use vstd::prelude::*;

verus! {

/// Format of the rendered audio: stereo, 44100 Hz, 32-bit signed samples.
pub struct WavParams {
    pub channels: u16,
    pub sample_rate: u32,
    pub bits_per_sample: u16,
}

pub open spec fn wav_params_wf(p: WavParams) -> bool {
    &&& p.channels >= 1
    &&& p.sample_rate >= 1
    &&& (p.bits_per_sample == 8 || p.bits_per_sample == 16 || p.bits_per_sample == 24
        || p.bits_per_sample == 32)
}

/// The one output format the renderer writes.
pub fn default_wav_params() -> (p: WavParams)
    ensures
        p.channels == 2,
        p.sample_rate == 44100,
        p.bits_per_sample == 32,
        wav_params_wf(p),
{
    WavParams { channels: 2, sample_rate: 44100, bits_per_sample: 32 }
}

/// Saturates a quantized value into the 32-bit signed sample range.
/// Overflow past the representable range clamps to the nearest bound,
/// never wraps.
pub fn clamp_to_sample(v: i64) -> (s: i32)
    ensures
        i32::MIN <= v <= i32::MAX ==> s == v as i32,
        v > i32::MAX ==> s == i32::MAX,
        v < i32::MIN ==> s == i32::MIN,
{
    if v > i32::MAX as i64 {
        i32::MAX
    } else if v < i32::MIN as i64 {
        i32::MIN
    } else {
        v as i32
    }
}

/// Flattens stereo frames into the output sample order: for each frame,
/// the left sample first, then the right.
pub fn interleave(frames: &Vec<(i32, i32)>) -> (out: Vec<i32>)
    requires
        frames@.len() * 2 <= usize::MAX,
    ensures
        out@.len() == 2 * frames@.len(),
        forall|i: int|
            0 <= i < frames@.len() ==> out@[2 * i] == (#[trigger] frames@[i]).0 && out@[2 * i
                + 1] == frames@[i].1,
{
    let mut out: Vec<i32> = Vec::new();
    let mut k: usize = 0;
    while k < frames.len()
        invariant
            k <= frames@.len(),
            frames@.len() * 2 <= usize::MAX,
            out@.len() == 2 * k,
            forall|i: int|
                0 <= i < k ==> out@[2 * i] == (#[trigger] frames@[i]).0 && out@[2 * i
                    + 1] == frames@[i].1,
        decreases frames@.len() - k,
    {
        let (l, r) = frames[k];
        out.push(l);
        out.push(r);
        k = k + 1;
    }
    out
}

} // verus!
