use audio_labeller::{label_from_name, label_name, label_response_body, parse_label_response, Label};

#[test]
fn response_body_is_a_json_string() {
    assert_eq!(label_response_body(&Label::Speech), "\"Speech\"");
    assert_eq!(label_response_body(&Label::Music), "\"Music\"");
    assert_eq!(label_response_body(&Label::Noise), "\"Noise\"");
}

#[test]
fn response_body_is_parsed_back() {
    assert_eq!(parse_label_response("\"Noise\""), Some(Label::Noise));
    assert_eq!(parse_label_response(" \"Music\" "), Some(Label::Music));
    assert_eq!(parse_label_response(&label_response_body(&Label::Speech)), Some(Label::Speech));
}

#[test]
fn bad_response_body_gives_none() {
    assert_eq!(parse_label_response("Speech"), None);
    assert_eq!(parse_label_response("\"Silence\""), None);
    assert_eq!(parse_label_response("{}"), None);
}

#[test]
fn names_round_trip() {
    for l in [Label::Speech, Label::Music, Label::Noise] {
        assert_eq!(label_from_name(&label_name(&l)), Some(l));
    }
    assert_eq!(label_from_name("speech"), None);
}

#[test]
fn body_is_read_back_as_its_label() {
    for l in [Label::Speech, Label::Music, Label::Noise] {
        assert_eq!(parse_label_response(&label_response_body(&l)), Some(l));
    }
}
