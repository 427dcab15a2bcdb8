//! The frame schedule of the renderer: how many frames are produced, when
//! the pitch glide gives way to the target frequency, which channel a voice
//! weights more heavily, and the normalization divisor of the mix-down.

use vstd::prelude::*;

use crate::chord::base_degrees;
use crate::chord::build_chord;
use crate::voice::Voice;
use crate::voice::init_voices;
use crate::voice::voice_wf;

verus! {

/// Frames per second of the rendered audio.
pub const SAMPLE_RATE: u32 = 44100;

/// Length of the rendered audio in seconds.
pub const NUM_SECONDS: u32 = 40;

/// Harmonics summed per voice, fundamental included.
pub const NUM_HARMONICS: u32 = 6;

/// Seconds of audio during which a voice glides toward its target pitch.
pub const GLIDE_SECONDS: u32 = 16;

/// Global shift applied to every scale degree of the chord.
pub const PITCH_SHIFT: i32 = -1;

/// Seed of the pseudo-random generator that draws the voice parameters.
pub const SEED: u64 = 0;

/// Total frames the render loop walks: one per sample period over the
/// whole duration.
pub fn total_frames(sample_rate: u32, num_seconds: u32) -> (n: u64)
    ensures
        n == sample_rate as int * num_seconds as int,
{
    proof {
        assert(sample_rate as int * num_seconds as int <= 0xFFFF_FFFF * 0xFFFF_FFFF)
            by (nonlinear_arith)
            requires
                sample_rate as int <= 0xFFFF_FFFF,
                num_seconds as int <= 0xFFFF_FFFF,
        ;
    }
    (sample_rate as u64) * (num_seconds as u64)
}

/// First frame index at which the glide has ended: the glide window is a
/// fixed count of sample periods.
pub fn glide_threshold_samples(sample_rate: u32) -> (n: u64)
    ensures
        n == sample_rate as int * GLIDE_SECONDS as int,
{
    (sample_rate as u64) * 16
}

/// The pitch glide applies exactly while the frame index is below the
/// threshold; from the threshold on a voice sounds its target frequency
/// directly, a hard cutover with no residual glide term.
pub fn in_glide_phase(frame_index: u64, glide_end: u64) -> (g: bool)
    ensures
        g <==> frame_index < glide_end,
{
    frame_index < glide_end
}

/// Which channel a voice feeds its larger pan weight: voices at even
/// indices weight the right channel, odd indices the left.
pub fn pan_major_side_right(voice_index: usize) -> (b: bool)
    ensures
        b <==> voice_index % 2 == 0,
{
    voice_index % 2 == 0
}

/// Normalization divisor of the mix-down.  The half-voice factor divides
/// by truncation, so an odd voice count contributes its rounded-down half.
pub fn mix_divisor(num_voices: usize, num_harmonics: usize) -> (d: u64)
    requires
        1 <= num_voices <= 0xFFFF,
        1 <= num_harmonics <= 0xFFFF,
    ensures
        d == num_voices as int * num_harmonics as int * (num_voices as int / 2),
{
    proof {
        assert(num_voices as int * num_harmonics as int <= 0xFFFF * 0xFFFF)
            by (nonlinear_arith)
            requires
                num_voices as int <= 0xFFFF,
                num_harmonics as int <= 0xFFFF,
        ;
    }
    let vh: u64 = (num_voices as u64) * (num_harmonics as u64);
    let half: u64 = (num_voices as u64) / 2;
    proof {
        assert(vh as int * half as int <= 0xFFFF * 0xFFFF * 0x7FFF) by (nonlinear_arith)
            requires
                vh as int <= 0xFFFF * 0xFFFF,
                half as int <= 0x7FFF,
        ;
    }
    vh * half
}

/// Frames the writer emits: the loop stops early once the frame index has
/// reached the cutoff, after writing that frame, so at most one frame past
/// the cutoff is produced.
pub fn frames_to_emit(loop_frames: u64, cut_off: u64) -> (n: u64)
    requires
        cut_off < u64::MAX,
    ensures
        n == if loop_frames <= cut_off { loop_frames as int } else { cut_off as int + 1 },
{
    if loop_frames <= cut_off {
        loop_frames
    } else {
        cut_off + 1
    }
}

/// Everything the frame loop needs, fixed before the first frame: the
/// shifted chord, its voices, the frame and glide-window counts, and the
/// mix-down divisor.  Nothing in it changes while frames render.
pub struct RenderPlan {
    pub chord: Vec<i32>,
    pub voices: Vec<Voice>,
    pub total_frames: u64,
    pub glide_end: u64,
    pub divisor: u64,
}

pub open spec fn render_plan_wf(p: RenderPlan) -> bool {
    &&& p.chord@.len() >= 1
    &&& p.voices@.len() == p.chord@.len()
    &&& forall|i: int|
        0 <= i < p.voices@.len() ==> (#[trigger] p.voices@[i]).key == p.chord@[i] && voice_wf(
            p.voices@[i],
        )
    &&& p.glide_end <= p.total_frames
    &&& p.divisor == p.chord@.len() * NUM_HARMONICS as int * (p.chord@.len() as int / 2)
}

/// Fixes the whole render ahead of the frame loop.  The generator is the
/// only source of variation: a generator in a given state always yields
/// the same plan.
pub fn plan_render(rng: &mut rand::rngs::StdRng) -> (p: RenderPlan)
    ensures
        render_plan_wf(p),
        p.chord@.len() == base_degrees().len(),
        forall|i: int|
            0 <= i < p.chord@.len() ==> p.chord@[i] == base_degrees()[i] + PITCH_SHIFT as int,
        p.total_frames == SAMPLE_RATE as int * NUM_SECONDS as int,
        p.glide_end == SAMPLE_RATE as int * GLIDE_SECONDS as int,
{
    let chord = build_chord(PITCH_SHIFT);
    let voices = init_voices(&chord, rng);
    let total = total_frames(SAMPLE_RATE, NUM_SECONDS);
    let glide_end = glide_threshold_samples(SAMPLE_RATE);
    let divisor = mix_divisor(chord.len(), NUM_HARMONICS as usize);
    RenderPlan { chord, voices, total_frames: total, glide_end, divisor }
}

} // verus!
