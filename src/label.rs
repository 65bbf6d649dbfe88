use vstd::prelude::*;

verus! {

/// Size of the model's class vocabulary: one activation per class.
pub const CLASS_COUNT: usize = 527;

/// Position of the speech activation inside one activation vector.
pub const SPEECH_INDEX: usize = 0;

/// Position of the music activation inside one activation vector.
pub const MUSIC_INDEX: usize = 137;

/// Position of the noise activation inside one activation vector.
pub const NOISE_INDEX: usize = 513;

/// IEEE-754 single-precision bits of `0.5`.
pub const HALF_BITS: u32 = 0x3f00_0000;

/// IEEE-754 single-precision bits of positive infinity.
pub const INFINITY_BITS: u32 = 0x7f80_0000;

/// The three outcomes of classification.
#[derive(Debug, Clone, Copy, PartialEq, Eq, Structural)]
pub enum Label {
    Speech,
    Music,
    Noise,
}

/// An activation score is carried as the bit pattern of a 32-bit float.
/// Scores come out of a sigmoid, so they are non-negative and never NaN:
/// on such patterns (sign bit clear, at most infinity) the unsigned order of
/// the bits is the numeric order of the floats, which is what the policy uses.
pub open spec fn valid_score(bits: u32) -> bool {
    bits <= INFINITY_BITS
}

/// The label policy: Noise when both speech and music are below one half,
/// otherwise the strictly greatest of the three scores, ties going to the
/// first of Speech, Music, Noise.
pub open spec fn label_of(speech: u32, music: u32, noise: u32) -> Label {
    if speech < HALF_BITS && music < HALF_BITS {
        Label::Noise
    } else if speech >= music && speech >= noise {
        Label::Speech
    } else if music >= noise {
        Label::Music
    } else {
        Label::Noise
    }
}

/// The label of the `i`-th activation vector of a flattened model output.
pub open spec fn item_label(flat: Seq<u32>, i: int) -> Label {
    label_of(
        flat[i * CLASS_COUNT + SPEECH_INDEX],
        flat[i * CLASS_COUNT + MUSIC_INDEX],
        flat[i * CLASS_COUNT + NOISE_INDEX],
    )
}

/// The three scores that the policy reads for the `i`-th item are valid.
pub open spec fn item_valid(flat: Seq<u32>, i: int) -> bool {
    &&& valid_score(flat[i * CLASS_COUNT + SPEECH_INDEX])
    &&& valid_score(flat[i * CLASS_COUNT + MUSIC_INDEX])
    &&& valid_score(flat[i * CLASS_COUNT + NOISE_INDEX])
}

/// Every score that the policy reads in a flattened output is a valid score.
pub open spec fn scores_valid(flat: Seq<u32>) -> bool {
    forall|i: int| 0 <= i < flat.len() / (CLASS_COUNT as nat) ==> #[trigger] item_valid(flat, i)
}

/// A flattened output that holds whole activation vectors with valid scores.
pub open spec fn well_formed_output(flat: Seq<u32>) -> bool {
    flat.len() % (CLASS_COUNT as nat) == 0 && scores_valid(flat)
}

/// Applies the label policy to one item's speech, music and noise scores.
pub fn classify(speech: u32, music: u32, noise: u32) -> (r: Label)
    requires
        valid_score(speech),
        valid_score(music),
        valid_score(noise),
    ensures
        r == label_of(speech, music, noise),
{
    if speech < HALF_BITS && music < HALF_BITS {
        Label::Noise
    } else if speech >= music && speech >= noise {
        Label::Speech
    } else if music >= noise {
        Label::Music
    } else {
        Label::Noise
    }
}

/// Splits a flattened model output into activation vectors of `CLASS_COUNT`
/// scores and labels each, in order. Fails when the output does not hold
/// whole vectors or when a score that the policy reads is negative or NaN.
pub fn label_activations(flat: &Vec<u32>) -> (r: Option<Vec<Label>>)
    ensures
        r is Some <==> well_formed_output(flat@),
        r matches Some(labels) ==> {
            &&& labels@.len() == flat@.len() / (CLASS_COUNT as nat)
            &&& forall|i: int| 0 <= i < labels@.len() ==> labels@[i] == item_label(flat@, i)
        },
{
    if flat.len() % CLASS_COUNT != 0 {
        return None;
    }
    let len: usize = flat.len();
    let count: usize = len / CLASS_COUNT;
    proof {
        assert(count * 527 == flat@.len()) by (nonlinear_arith)
            requires count == flat@.len() / 527, flat@.len() % 527 == 0;
    }
    let mut labels: Vec<Label> = Vec::new();
    let mut i: usize = 0;
    while i < count
        invariant
            flat@.len() <= usize::MAX,
            count == flat@.len() / (CLASS_COUNT as nat),
            count * 527 == flat@.len(),
            i <= count,
            labels@.len() == i,
            forall|j: int| 0 <= j < i ==> labels@[j] == item_label(flat@, j),
            forall|j: int| 0 <= j < i ==> #[trigger] item_valid(flat@, j),
        decreases count - i,
    {
        proof {
            assert(i * 527 + 527 <= count * 527) by (nonlinear_arith)
                requires i < count;
        }
        let base: usize = i * CLASS_COUNT;
        let speech = flat[base + SPEECH_INDEX];
        let music = flat[base + MUSIC_INDEX];
        let noise = flat[base + NOISE_INDEX];
        if speech > INFINITY_BITS || music > INFINITY_BITS || noise > INFINITY_BITS {
            proof {
                assert(!item_valid(flat@, i as int));
            }
            return None;
        }
        labels.push(classify(speech, music, noise));
        i = i + 1;
    }
    Some(labels)
}

} // verus!
