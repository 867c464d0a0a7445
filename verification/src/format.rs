//! Choosing a serialization format from the suffix of a path.

use vstd::prelude::*;
use vstd::string::StrSliceExecFns;

verus! {

/// The serialization formats a configuration file can be written in.
#[derive(Clone, Copy, Debug, PartialEq, Eq)]
pub enum Format {
    Toml,
    Json,
    Yaml,
}

impl Format {
    /// The literal path suffix that selects this format.
    pub open spec fn suffix(self) -> Seq<char> {
        match self {
            Format::Toml => ".toml"@,
            Format::Json => ".json"@,
            Format::Yaml => ".yaml"@,
        }
    }

    /// The literal path suffix that selects this format, as text.
    pub fn extension(self) -> (s: &'static str)
        ensures
            s@ == self.suffix(),
    {
        match self {
            Format::Toml => ".toml",
            Format::Json => ".json",
            Format::Yaml => ".yaml",
        }
    }

    /// The format selected by `path`, if its suffix is one of the three
    /// literals. The match is case-sensitive and looks at the trailing
    /// characters only.
    pub fn from_path(path: &str) -> (found: Option<Format>)
        ensures
            found == format_of(path@),
    {
        if ends_with(path, Format::Toml.extension()) {
            Some(Format::Toml)
        } else if ends_with(path, Format::Json.extension()) {
            Some(Format::Json)
        } else if ends_with(path, Format::Yaml.extension()) {
            Some(Format::Yaml)
        } else {
            None
        }
    }
}

/// The format a path selects: the suffixes are tried in the order
/// `.toml`, `.json`, `.yaml`, and a path with none of them selects nothing.
pub open spec fn format_of(path: Seq<char>) -> Option<Format> {
    if Format::Toml.suffix().is_suffix_of(path) {
        Some(Format::Toml)
    } else if Format::Json.suffix().is_suffix_of(path) {
        Some(Format::Json)
    } else if Format::Yaml.suffix().is_suffix_of(path) {
        Some(Format::Yaml)
    } else {
        None
    }
}

/// Whether the characters of `text` end with the characters of `suffix`.
pub fn ends_with(text: &str, suffix: &str) -> (found: bool)
    ensures
        found == suffix@.is_suffix_of(text@),
{
    let text_len: usize = text.unicode_len();
    let suffix_len: usize = suffix.unicode_len();
    if suffix_len > text_len {
        return false;
    }
    let start: usize = text_len - suffix_len;
    let ghost tail = text@.subrange(start as int, text_len as int);
    let mut i: usize = 0;
    while i < suffix_len
        invariant
            i <= suffix_len,
            suffix_len == suffix@.len(),
            text_len == text@.len(),
            start + suffix_len == text_len,
            tail == text@.subrange(start as int, text_len as int),
            forall|j: int| 0 <= j < i ==> tail[j] == suffix@[j],
        decreases suffix_len - i,
    {
        if text.get_char(start + i) != suffix.get_char(i) {
            assert(tail[i as int] != suffix@[i as int]);
            return false;
        }
        i = i + 1;
    }
    assert(suffix@ =~= tail);
    true
}

/// No path ends with the suffixes of two different formats.
pub proof fn lemma_suffixes_exclusive(path: Seq<char>, first: Format, second: Format)
    requires
        first.suffix().is_suffix_of(path),
        second.suffix().is_suffix_of(path),
    ensures
        first == second,
{
    reveal_strlit(".toml");
    reveal_strlit(".json");
    reveal_strlit(".yaml");
    let at: int = path.len() - 4;
    let tail = path.subrange(path.len() - 5, path.len() as int);
    assert(tail[1] == path[at]);
    assert(first.suffix()[1] == path[at]);
    assert(second.suffix()[1] == path[at]);
}

/// A path selects a format exactly when it ends with that format's suffix,
/// so the order in which the suffixes are tried decides nothing.
pub proof fn lemma_format_of_matches_suffix(path: Seq<char>, format: Format)
    ensures
        format_of(path) == Some(format) <==> format.suffix().is_suffix_of(path),
{
    if format.suffix().is_suffix_of(path) {
        if Format::Toml.suffix().is_suffix_of(path) {
            lemma_suffixes_exclusive(path, Format::Toml, format);
        } else if Format::Json.suffix().is_suffix_of(path) {
            lemma_suffixes_exclusive(path, Format::Json, format);
        }
    }
}

/// A path selects no format exactly when it ends with none of the suffixes.
pub proof fn lemma_format_of_none(path: Seq<char>)
    ensures
        format_of(path) is None <==> forall|format: Format|
            !(#[trigger] format.suffix()).is_suffix_of(path),
{
    if format_of(path) is None {
        assert forall|format: Format| !(#[trigger] format.suffix()).is_suffix_of(path) by {
            lemma_format_of_matches_suffix(path, format);
        }
    } else {
        let chosen = format_of(path)->Some_0;
        lemma_format_of_matches_suffix(path, chosen);
        assert(chosen.suffix().is_suffix_of(path));
    }
}

/// Only the trailing characters count: whatever stands before a format's
/// suffix, dots and other suffixes included, the path selects that format.
pub proof fn lemma_format_of_ignores_stem(stem: Seq<char>, format: Format)
    ensures
        format_of(stem + format.suffix()) == Some(format),
{
    let path = stem + format.suffix();
    assert(path.subrange(path.len() - format.suffix().len(), path.len() as int)
        =~= format.suffix());
    lemma_format_of_matches_suffix(path, format);
}

} // verus!
