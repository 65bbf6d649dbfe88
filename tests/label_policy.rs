use audio_labeller::{classify, label_activations, Label, CLASS_COUNT};

fn label_for(speech: f32, music: f32, noise: f32) -> Label {
    classify(speech.to_bits(), music.to_bits(), noise.to_bits())
}

#[test]
fn clear_speech_is_speech() {
    assert_eq!(label_for(0.9, 0.1, 0.0), Label::Speech);
}

#[test]
fn both_below_half_is_noise() {
    assert_eq!(label_for(0.2, 0.3, 0.0), Label::Noise);
    assert_eq!(label_for(0.2, 0.3, 0.95), Label::Noise);
}

#[test]
fn clear_music_is_music() {
    assert_eq!(label_for(0.3, 0.8, 0.0), Label::Music);
}

#[test]
fn greatest_score_wins() {
    assert_eq!(label_for(0.6, 0.7, 0.0), Label::Music);
    assert_eq!(label_for(0.6, 0.1, 0.9), Label::Noise);
}

#[test]
fn ties_go_to_the_first_listed() {
    assert_eq!(label_for(0.7, 0.7, 0.7), Label::Speech);
    assert_eq!(label_for(0.2, 0.7, 0.7), Label::Music);
    assert_eq!(label_for(0.5, 0.1, 0.2), Label::Speech);
}

fn activations(items: &[(f32, f32, f32)]) -> Vec<u32> {
    let mut flat = vec![0.0f32.to_bits(); items.len() * CLASS_COUNT];
    for (i, &(s, m, n)) in items.iter().enumerate() {
        flat[i * CLASS_COUNT] = s.to_bits();
        flat[i * CLASS_COUNT + 137] = m.to_bits();
        flat[i * CLASS_COUNT + 513] = n.to_bits();
    }
    flat
}

#[test]
fn activations_are_labelled_in_order() {
    let flat = activations(&[(0.9, 0.1, 0.0), (0.2, 0.3, 0.0), (0.3, 0.8, 0.0), (0.6, 0.7, 0.0)]);
    assert_eq!(
        label_activations(&flat),
        Some(vec![Label::Speech, Label::Noise, Label::Music, Label::Music])
    );
}

#[test]
fn other_classes_are_ignored() {
    let mut flat = activations(&[(0.9, 0.1, 0.0)]);
    flat[1] = 1.0f32.to_bits();
    flat[526] = 1.0f32.to_bits();
    assert_eq!(label_activations(&flat), Some(vec![Label::Speech]));
}

#[test]
fn empty_output_gives_no_labels() {
    assert_eq!(label_activations(&Vec::new()), Some(Vec::new()));
}

#[test]
fn partial_vector_is_refused() {
    let mut flat = activations(&[(0.9, 0.1, 0.0)]);
    flat.push(0);
    assert_eq!(label_activations(&flat), None);
}

#[test]
fn nan_or_negative_score_is_refused() {
    let flat = activations(&[(0.9, 0.1, 0.0), (f32::NAN, 0.1, 0.0)]);
    assert_eq!(label_activations(&flat), None);
    let flat = activations(&[(0.9, -0.1, 0.0)]);
    assert_eq!(label_activations(&flat), None);
}
