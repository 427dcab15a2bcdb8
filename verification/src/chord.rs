//! The chord the renderer plays: a fixed sequence of piano-key scale
//! degrees, each moved by a global pitch shift before any voice is built.

use vstd::prelude::*;

verus! {

/// The unshifted scale degrees of the chord, in playing order.
pub open spec fn base_degrees() -> Seq<int> {
    seq![9, 16, 21, 28, 33, 40, 45, 52, 57, 64, 69, 74, 79, 84, 89, 94, 99, 104, 109]
}

/// Builds the chord: every base degree moved by the pitch shift, order kept.
/// The voice count of the whole render equals the length returned here.
pub fn build_chord(pitch_shift: i32) -> (c: Vec<i32>)
    requires
        -100_000 <= pitch_shift <= 100_000,
    ensures
        c@.len() == base_degrees().len(),
        forall|i: int| 0 <= i < c@.len() ==> c@[i] == base_degrees()[i] + pitch_shift,
{
    let degrees: [i32; 19] = [
        9, 16, 21, 28, 33, 40, 45, 52, 57, 64, 69, 74, 79, 84, 89, 94, 99, 104, 109,
    ];
    let mut c: Vec<i32> = Vec::new();
    let mut k: usize = 0;
    while k < 19
        invariant
            k <= 19,
            c@.len() == k,
            -100_000 <= pitch_shift <= 100_000,
            degrees@ =~= seq![
                9i32, 16, 21, 28, 33, 40, 45, 52, 57, 64, 69, 74, 79, 84, 89, 94, 99, 104, 109,
            ],
            forall|i: int| 0 <= i < k ==> c@[i] == base_degrees()[i] + pitch_shift,
        decreases 19 - k,
    {
        let d = degrees[k];
        proof {
            assert(degrees@[k as int] as int == base_degrees()[k as int]);
        }
        c.push(d + pitch_shift);
        k = k + 1;
    }
    c
}

} // verus!
