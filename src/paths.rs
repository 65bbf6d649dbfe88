use vstd::prelude::*;

use crate::label::Label;

verus! {

/// What the path text of a file's final component is, when it has one.
pub uninterp spec fn file_name_of(path: Seq<char>) -> Option<Seq<char>>;

/// What the path text of `dir` extended by the component `name` is.
pub uninterp spec fn joined_path(dir: Seq<char>, name: Seq<char>) -> Seq<char>;

/// The view of an optional string.
pub open spec fn opt_view(o: Option<String>) -> Option<Seq<char>> {
    match o {
        Some(s) => Some(s@),
        None => None,
    }
}

/// Relies on `std::path::Path::file_name`: the final component of the path,
/// if it is a normal component, as a function of the path's text.
#[verifier::external_body]
fn file_name(path: &str) -> (r: Option<String>)
    ensures
        opt_view(r) == file_name_of(path@),
{
    std::path::Path::new(path).file_name().map(|n| n.to_string_lossy().into_owned())
}

/// Relies on `std::path::PathBuf::push`: `dir` extended by the component
/// `name`, as a function of the two texts.
#[verifier::external_body]
fn join_path(dir: &str, name: &str) -> (r: String)
    ensures
        r@ == joined_path(dir@, name@),
{
    let mut buf = std::path::PathBuf::from(dir);
    buf.push(name);
    buf.to_string_lossy().into_owned()
}

/// Where labelled files go, by label; a label without a directory is left
/// where it is.
pub struct ResultPathOptions {
    pub speech_dir: Option<String>,
    pub music_dir: Option<String>,
    pub noise_dir: Option<String>,
}

/// What to do with a labelled file.
pub enum Command {
    Copy { speech_dir: Option<String>, music_dir: Option<String>, noise_dir: Option<String> },
    Move { speech_dir: Option<String>, music_dir: Option<String>, noise_dir: Option<String> },
}

/// The directory that `options` gives for `label`.
pub open spec fn dir_for(label: Label, options: ResultPathOptions) -> Option<Seq<char>> {
    match label {
        Label::Speech => opt_view(options.speech_dir),
        Label::Music => opt_view(options.music_dir),
        Label::Noise => opt_view(options.noise_dir),
    }
}

/// The name under which a file is placed: its final component, or the whole
/// path when it has none.
pub open spec fn entry_name(path: Seq<char>) -> Seq<char> {
    match file_name_of(path) {
        Some(n) => n,
        None => path,
    }
}

fn clone_opt(o: &Option<String>) -> (r: Option<String>)
    ensures
        opt_view(r) == opt_view(*o),
{
    match o {
        Some(s) => Some(s.clone()),
        None => None,
    }
}

/// The directory that `options` gives for `label`, if any.
pub fn result_dir(label: &Label, options: &ResultPathOptions) -> (r: Option<String>)
    ensures
        opt_view(r) == dir_for(*label, *options),
{
    match label {
        Label::Speech => clone_opt(&options.speech_dir),
        Label::Music => clone_opt(&options.music_dir),
        Label::Noise => clone_opt(&options.noise_dir),
    }
}

/// Where a file labelled `label` goes: the label's directory joined with the
/// file's name; `None` when the label has no directory.
pub fn get_result_path(path: &str, label: &Label, options: &ResultPathOptions) -> (r: Option<String>)
    ensures
        opt_view(r) == match dir_for(*label, *options) {
            Some(dir) => Some(joined_path(dir, entry_name(path@))),
            None => None,
        },
{
    match result_dir(label, options) {
        Some(dir) => {
            let name = match file_name(path) {
                Some(n) => n,
                None => path.to_owned(),
            };
            Some(join_path(dir.as_str(), name.as_str()))
        },
        None => None,
    }
}

impl Command {
    /// The directories that the command names.
    pub fn options(&self) -> (r: ResultPathOptions)
        ensures
            match self {
                Command::Copy { speech_dir, music_dir, noise_dir } | Command::Move {
                    speech_dir,
                    music_dir,
                    noise_dir,
                } => {
                    &&& opt_view(r.speech_dir) == opt_view(*speech_dir)
                    &&& opt_view(r.music_dir) == opt_view(*music_dir)
                    &&& opt_view(r.noise_dir) == opt_view(*noise_dir)
                },
            },
    {
        match self {
            Command::Copy { speech_dir, music_dir, noise_dir } | Command::Move {
                speech_dir,
                music_dir,
                noise_dir,
            } => ResultPathOptions {
                speech_dir: clone_opt(speech_dir),
                music_dir: clone_opt(music_dir),
                noise_dir: clone_opt(noise_dir),
            },
        }
    }

    /// Whether the command moves files rather than copying them.
    pub fn is_move(&self) -> (r: bool)
        ensures
            r == (self is Move),
    {
        match self {
            Command::Copy { .. } => false,
            Command::Move { .. } => true,
        }
    }
}

} // verus!
