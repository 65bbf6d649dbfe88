use vstd::prelude::*;

use crate::label::Label;
use crate::paths::opt_view;

verus! {

/// What the JSON text of the string `s` is.
pub uninterp spec fn json_string_text(s: Seq<char>) -> Seq<char>;

/// What string the JSON text `text` holds, when it is a JSON string.
pub uninterp spec fn json_string_value(text: Seq<char>) -> Option<Seq<char>>;

/// Text that JSON writes unescaped: no quote, backslash or control character.
pub open spec fn plain_text(s: Seq<char>) -> bool {
    forall|i: int| 0 <= i < s.len() ==> s[i] != '"' && s[i] != '\\' && s[i] as u32 >= 0x20
}

/// The text between double quotes.
pub open spec fn quoted(s: Seq<char>) -> Seq<char> {
    seq!['"'] + s + seq!['"']
}

/// Plain text between double quotes.
pub open spec fn plain_quoted(t: Seq<char>) -> bool {
    &&& t.len() >= 2
    &&& t[0] == '"'
    &&& t[t.len() - 1] == '"'
    &&& plain_text(unquoted(t))
}

/// The text inside the outer quotes.
pub open spec fn unquoted(t: Seq<char>) -> Seq<char> {
    t.subrange(1, t.len() - 1)
}

/// Relies on `serde_json::to_string` on a `str`: the JSON text of the string,
/// as a function of the string alone (serialising a `str` does not fail).
/// Its escape table leaves all but quote, backslash and control characters
/// as they are, so plain text comes out between quotes.
#[verifier::external_body]
fn encode_json_string(s: &str) -> (r: String)
    ensures
        r@ == json_string_text(s@),
        plain_text(s@) ==> r@ == quoted(s@),
{
    serde_json::to_string(s).unwrap_or_default()
}

/// Relies on `serde_json::from_str::<String>`: the string that a JSON text
/// holds, or `None` when the text is not a JSON string. Plain text between
/// quotes holds that text.
#[verifier::external_body]
fn decode_json_string(text: &str) -> (r: Option<String>)
    ensures
        r matches Some(x) ==> json_string_value(text@) == Some(x@),
        r is None ==> json_string_value(text@) is None,
        plain_quoted(text@) ==> opt_view(r) == Some(unquoted(text@)),
{
    serde_json::from_str::<String>(text).ok()
}

/// The name of a label.
pub open spec fn label_text(label: Label) -> Seq<char> {
    match label {
        Label::Speech => "Speech"@,
        Label::Music => "Music"@,
        Label::Noise => "Noise"@,
    }
}

/// The label with a given name.
pub open spec fn label_named(name: Seq<char>) -> Option<Label> {
    if name == "Speech"@ {
        Some(Label::Speech)
    } else if name == "Music"@ {
        Some(Label::Music)
    } else if name == "Noise"@ {
        Some(Label::Noise)
    } else {
        None
    }
}

/// Label names are plain text, and each names its own label.
pub proof fn lemma_label_text_plain(label: Label)
    ensures
        plain_text(label_text(label)),
        label_named(label_text(label)) == Some(label),
{
    reveal_strlit("Speech");
    reveal_strlit("Music");
    reveal_strlit("Noise");
    assert("Music"@ != "Speech"@) by {
        assert("Music"@.len() != "Speech"@.len());
    }
    assert("Noise"@ != "Speech"@) by {
        assert("Noise"@.len() != "Speech"@.len());
    }
    assert("Noise"@ != "Music"@) by {
        assert("Noise"@[0] != "Music"@[0]);
    }
}

/// The body written for a label is read back as that label: it is the
/// label's plain name between quotes, which the reader takes apart again.
pub proof fn lemma_label_response_round_trip(label: Label)
    ensures
        plain_quoted(quoted(label_text(label))),
        label_named(unquoted(quoted(label_text(label)))) == Some(label),
{
    lemma_label_text_plain(label);
    let t = label_text(label);
    assert(unquoted(quoted(t)) =~= t);
}

/// The name of a label.
pub fn label_name(label: &Label) -> (r: String)
    ensures
        r@ == label_text(*label),
{
    match label {
        Label::Speech => "Speech".to_owned(),
        Label::Music => "Music".to_owned(),
        Label::Noise => "Noise".to_owned(),
    }
}

/// The label with the name `name`, if there is one.
pub fn label_from_name(name: &str) -> (r: Option<Label>)
    ensures
        r == label_named(name@),
{
    let n = name.to_owned();
    if n == "Speech".to_owned() {
        Some(Label::Speech)
    } else if n == "Music".to_owned() {
        Some(Label::Music)
    } else if n == "Noise".to_owned() {
        Some(Label::Noise)
    } else {
        None
    }
}

/// The response body that carries a label: its name as a JSON string.
pub fn label_response_body(label: &Label) -> (r: String)
    ensures
        r@ == json_string_text(label_text(*label)),
        r@ == quoted(label_text(*label)),
{
    proof {
        lemma_label_text_plain(*label);
    }
    let name = label_name(label);
    encode_json_string(name.as_str())
}

/// The label that a response body carries; `None` when the body is not a
/// JSON string or names no label.
pub fn parse_label_response(text: &str) -> (r: Option<Label>)
    ensures
        plain_quoted(text@) ==> r == label_named(unquoted(text@)),
        r == match json_string_value(text@) {
            Some(v) => label_named(v),
            None => None,
        },
{
    match decode_json_string(text) {
        Some(v) => label_from_name(v.as_str()),
        None => None,
    }
}

} // verus!
