//! Per-voice parameters, drawn once at startup from the chord and a seeded
//! pseudo-random generator, and never mutated afterwards.

use vstd::prelude::*;

verus! {

/// One sounding note of the chord.
#[derive(Clone, Copy, PartialEq, Eq, Structural, Debug)]
pub struct Voice {
    /// Piano-key number whose equal-tempered frequency the voice glides toward.
    pub key: i32,
    /// Randomized pre-glide frequency, in whole hertz.
    pub initial_freq: u32,
    /// Randomized phase offset of the slow stereo-detune sine.
    pub detune_phase: u32,
}

/// A well-formed voice starts in the 300..400 Hz band and carries a detune
/// phase below 200, whatever the generator produced.
pub open spec fn voice_wf(v: Voice) -> bool {
    &&& 300 <= v.initial_freq < 400
    &&& v.detune_phase < 200
}

#[verifier::external_type_specification]
#[verifier::external_body]
pub struct ExStdRng(rand::rngs::StdRng);

/// Relies on rand::Rng::gen_range over a half-open integer range: the draw
/// lies in [lo, hi).  gen_range panics only on an empty range, which the
/// precondition rules out.
#[verifier::external_body]
fn draw_in_range(rng: &mut rand::rngs::StdRng, lo: u32, hi: u32) -> (d: u32)
    requires
        lo < hi,
    ensures
        lo <= d < hi,
{
    rand::Rng::gen_range(rng, lo..hi)
}

/// Derives the per-voice parameters from the chord, one voice per entry in
/// chord order, drawing the randomized initial frequency before the detune
/// phase for each voice, so a generator in a given state always yields the
/// same voices.
pub fn init_voices(chord: &Vec<i32>, rng: &mut rand::rngs::StdRng) -> (voices: Vec<Voice>)
    ensures
        voices@.len() == chord@.len(),
        forall|i: int|
            0 <= i < voices@.len() ==> (#[trigger] voices@[i]).key == chord@[i] && voice_wf(
                voices@[i],
            ),
{
    let mut voices: Vec<Voice> = Vec::new();
    let mut k: usize = 0;
    while k < chord.len()
        invariant
            k <= chord@.len(),
            voices@.len() == k,
            forall|i: int|
                0 <= i < k ==> (#[trigger] voices@[i]).key == chord@[i] && voice_wf(voices@[i]),
        decreases chord@.len() - k,
    {
        let offset = draw_in_range(rng, 0, 100);
        let detune_phase = draw_in_range(rng, 0, 200);
        voices.push(Voice { key: chord[k], initial_freq: offset + 300, detune_phase });
        k = k + 1;
    }
    voices
}

} // verus!
