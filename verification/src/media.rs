//! Paths of media files: display names, extensions and the formats they
//! stand for.
//!
//! Paths are taken apart by `std::path::Path`, text is lowercased and
//! classified by `str` and `char`. Those calls stand behind small trusted
//! functions; everything built on them is verified.

use crate::text::text_equals;
use std::path::Path;
use vstd::prelude::*;

verus! {

/// The final component of a path, as `std::path::Path::file_name` gives it
/// for the path syntax of the platform the library is built for.
pub uninterp spec fn path_file_name(path: Seq<char>) -> Option<Seq<char>>;

/// The lowercase form of a text, as `str::to_lowercase` gives it.
pub uninterp spec fn lowercase_of(text: Seq<char>) -> Seq<char>;

/// Whether a character is alphabetic or numeric, as `char::is_alphanumeric`
/// gives it.
pub uninterp spec fn char_is_alphanumeric(c: char) -> bool;

/// Position of the last `.` in `name`, or `-1` if it holds none.
pub open spec fn last_dot(name: Seq<char>) -> int
    decreases name.len(),
{
    if name.len() == 0 {
        -1
    } else if name.last() == '.' {
        name.len() - 1
    } else {
        last_dot(name.drop_last())
    }
}

/// The extension of a file name: what follows its last `.`, unless the name
/// holds no `.` or only one that starts it.
pub open spec fn name_extension(name: Seq<char>) -> Option<Seq<char>> {
    if last_dot(name) <= 0 {
        None
    } else {
        Some(name.subrange(last_dot(name) + 1, name.len() as int))
    }
}

/// The extension of a path: that of its final component.
pub open spec fn extension_of(path: Seq<char>) -> Option<Seq<char>> {
    match path_file_name(path) {
        Some(name) => name_extension(name),
        None => None,
    }
}

/// The name under which a track is shown: the final component of its path,
/// or the empty text where the path has none.
pub open spec fn display_name_of(path: Seq<char>) -> Seq<char> {
    match path_file_name(path) {
        Some(name) => name,
        None => Seq::empty(),
    }
}

/// Calls `std::path::Path::file_name` on `path`. The contract only names the
/// result: the same path always has the same final component. A path given
/// as text has a final component that is text too, so the conversion loses
/// nothing.
#[verifier::external_body]
fn file_name(path: &str) -> (name: Option<String>)
    ensures
        name.deep_view() == path_file_name(path@),
{
    match Path::new(path).file_name() {
        Some(name) => Some(name.to_string_lossy().into_owned()),
        None => None,
    }
}

/// Calls `std::path::Path::extension` on `path`. The contract states what the
/// documentation of that method says: there is no extension without a file
/// name, without a `.` in it, or when its only `.` starts it; otherwise the
/// extension is the part of the file name after its last `.`.
#[verifier::external_body]
fn extension(path: &str) -> (ext: Option<String>)
    ensures
        ext.deep_view() == extension_of(path@),
{
    match Path::new(path).extension() {
        Some(ext) => Some(ext.to_string_lossy().into_owned()),
        None => None,
    }
}

/// Calls `str::to_lowercase`. The contract only names the result.
#[verifier::external_body]
fn lowercase(text: &str) -> (lower: String)
    ensures
        lower@ == lowercase_of(text@),
{
    text.to_lowercase()
}

/// Calls `char::is_alphanumeric`. The contract only names the result.
#[verifier::external_body]
fn is_alphanumeric(c: char) -> (b: bool)
    ensures
        b == char_is_alphanumeric(c),
{
    c.is_alphanumeric()
}

/// Calls `String::push`: the character is appended and nothing else changes.
#[verifier::external_body]
fn push_char(text: &mut String, c: char)
    ensures
        final(text)@ == old(text)@.push(c),
{
    text.push(c)
}

/// The name under which a track is shown.
pub fn display_name(path: &str) -> (name: String)
    ensures
        name@ == display_name_of(path@),
{
    match file_name(path) {
        Some(name) => name,
        None => String::new(),
    }
}

/// The extension of `path` in lowercase, if it has one.
pub open spec fn lower_extension_of(path: Seq<char>) -> Option<Seq<char>> {
    match extension_of(path) {
        Some(ext) => Some(lowercase_of(ext)),
        None => None,
    }
}

/// The extension of `path` in lowercase, if it has one.
pub fn lower_extension(path: &str) -> (ext: Option<String>)
    ensures
        ext.deep_view() == lower_extension_of(path@),
{
    match extension(path) {
        Some(ext) => Some(lowercase(ext.as_str())),
        None => None,
    }
}

/// Whether a lowercase extension is one of the audio formats that the
/// library lists: mp3, wav, flac, ogg, m4a, aif, aiff.
pub open spec fn is_audio_extension(ext: Seq<char>) -> bool {
    ||| ext == "mp3"@
    ||| ext == "wav"@
    ||| ext == "flac"@
    ||| ext == "ogg"@
    ||| ext == "m4a"@
    ||| ext == "aif"@
    ||| ext == "aiff"@
}

/// Whether a path names an audio file, judged by its extension alone and
/// without regard to case.
pub open spec fn is_audio_path(path: Seq<char>) -> bool {
    match lower_extension_of(path) {
        Some(ext) => is_audio_extension(ext),
        None => false,
    }
}

/// Whether a lowercase extension is one of the listed audio formats.
pub fn audio_extension(ext: &str) -> (listed: bool)
    ensures
        listed == is_audio_extension(ext@),
{
    text_equals(ext, "mp3") || text_equals(ext, "wav") || text_equals(ext, "flac") || text_equals(
        ext,
        "ogg",
    ) || text_equals(ext, "m4a") || text_equals(ext, "aif") || text_equals(ext, "aiff")
}

/// Whether a path names an audio file, judged by its extension alone and
/// without regard to case.
pub fn is_audio_file(path: &str) -> (audio: bool)
    ensures
        audio == is_audio_path(path@),
{
    match lower_extension(path) {
        Some(ext) => audio_extension(ext.as_str()),
        None => false,
    }
}

/// How the samples of a file are produced and how playback is repositioned
/// in it.
#[derive(Clone, Copy, Debug, PartialEq, Eq, Structural)]
pub enum SourceFormat {
    /// FLAC: decoded by a demuxer and decoder pair that seeks by timestamp
    /// when the source is built. An active stream is never repositioned in
    /// place; a seek rebuilds the source at the target.
    Flac,
    /// Any other format: decoded by the general decoder, whose stream can be
    /// repositioned in place.
    Other,
}

/// The format class of a path, by its extension; none where the path has no
/// extension, and then no source can be built for it.
pub open spec fn source_format_of(path: Seq<char>) -> Option<SourceFormat> {
    match lower_extension_of(path) {
        Some(ext) => if ext == "flac"@ {
            Some(SourceFormat::Flac)
        } else {
            Some(SourceFormat::Other)
        },
        None => None,
    }
}

/// The format class of a path, by its extension.
pub fn source_format(path: &str) -> (format: Option<SourceFormat>)
    ensures
        format == source_format_of(path@),
{
    match lower_extension(path) {
        Some(ext) => if text_equals(ext.as_str(), "flac") {
            Some(SourceFormat::Flac)
        } else {
            Some(SourceFormat::Other)
        },
        None => None,
    }
}

/// Whether `sanitize_filename` leaves a character as it is.
pub open spec fn is_filename_safe(c: char) -> bool {
    char_is_alphanumeric(c) || c == '-' || c == '_' || c == ' '
}

/// What `sanitize_filename` puts in the place of a character.
pub open spec fn sanitized_char(c: char) -> char {
    if is_filename_safe(c) {
        c
    } else {
        '_'
    }
}

/// A name in which every character that is not safe is replaced by `_`.
pub open spec fn sanitized(name: Seq<char>) -> Seq<char> {
    Seq::new(name.len(), |i: int| sanitized_char(name[i]))
}

/// Turns a playlist name into a file stem: letters, digits, `-`, `_` and
/// spaces stay, every other character becomes `_`.
pub fn sanitize_filename(name: &str) -> (stem: String)
    ensures
        stem@ == sanitized(name@),
{
    let mut stem = String::new();
    for c in it: name.chars()
        invariant
            it.seq() == name@,
            stem@ == sanitized(name@.take(it.index() as int)),
    {
        let keep: bool = is_alphanumeric(c) || c == '-' || c == '_' || c == ' ';
        push_char(&mut stem, if keep { c } else { '_' });
        assert(name@.take(it.index() + 1) =~= name@.take(it.index() as int).push(c));
    }
    assert(name@.take(name@.len() as int) =~= name@);
    stem
}

/// Sanitizing keeps the length of a name and never leaves a character that
/// is not safe, whatever the name held.
pub proof fn lemma_sanitized_is_safe(name: Seq<char>)
    ensures
        sanitized(name).len() == name.len(),
        forall|i: int| 0 <= i < name.len() ==> is_filename_safe(#[trigger] sanitized(name)[i]),
{
}

/// Sanitizing a sanitized name changes nothing.
pub proof fn lemma_sanitized_is_idempotent(name: Seq<char>)
    ensures
        sanitized(sanitized(name)) == sanitized(name),
{
    assert(sanitized(sanitized(name)) =~= sanitized(name));
}

} // verus!
