//! Typed configuration files in TOML, JSON and YAML.
//!
//! The format of a file is chosen by the literal suffix of its path:
//! `.toml`, `.json` or `.yaml`, and nothing else. The crate never touches
//! the file system itself. To load, the caller reads the file and hands over
//! the outcome of the read; to save, the caller writes the text that comes
//! back.

pub mod codec;
pub mod error;
pub mod format;

use vstd::prelude::*;
use crate::codec::{decode, decode_outcome, encode, encode_outcome};
use crate::error::ConfigError;
use crate::format::{format_of, lemma_format_of_none, Format};

verus! {

/// An example of a configuration: what a small server needs to start.
#[derive(Debug, PartialEq, Eq)]
pub struct Config {
    /// URL of the database connection.
    pub database_url: String,
    /// Port the server listens on.
    pub port: u16,
    /// Whether the server runs in debug mode.
    pub debug: bool,
}

/// What loading from `path` reports, given the outcome of reading the file.
///
/// A failed read is reported first, whatever the path's suffix. After a
/// successful read an unrecognised suffix is reported without any decoding.
/// Otherwise the decoder of the selected format is given the file's text,
/// and the report is that decoder's value or a `Decode` error.
pub open spec fn load_report<T: serde::de::DeserializeOwned>(
    path: Seq<char>,
    file: Result<String, String>,
    report: Result<T, ConfigError>,
) -> bool {
    match file {
        Err(cause) => report == Err::<T, ConfigError>(ConfigError::Io(cause)),
        Ok(text) => match format_of(path) {
            None => report == Err::<T, ConfigError>(ConfigError::UnsupportedFormat),
            Some(format) => {
                &&& decode_outcome(format, text@, report)
                &&& report matches Err(error) ==> error is Decode
            },
        },
    }
}

/// What saving `config` to `path` reports: for an unrecognised suffix an
/// error and no text, so that nothing is written; otherwise the encoder of
/// the selected format is given `config`, and the report is that encoder's
/// text, to be written, or an `Encode` error.
pub open spec fn save_report<T: serde::Serialize>(
    path: Seq<char>,
    config: &T,
    report: Result<String, ConfigError>,
) -> bool {
    match format_of(path) {
        None => report == Err::<String, ConfigError>(ConfigError::UnsupportedFormat),
        Some(format) => {
            &&& encode_outcome(format, config, report)
            &&& report matches Err(error) ==> error is Encode
        },
    }
}

/// Loads a `T` from the file at `path`, which the caller has read: `file`
/// is the file's text, or the message of the failed read.
///
/// The text is decoded in the format that the suffix of `path` selects.
pub fn load_config<T: serde::de::DeserializeOwned>(
    path: &str,
    file: Result<String, String>,
) -> (report: Result<T, ConfigError>)
    ensures
        load_report(path@, file, report),
{
    match file {
        Err(cause) => Err(ConfigError::Io(cause)),
        Ok(text) => match Format::from_path(path) {
            None => Err(ConfigError::UnsupportedFormat),
            Some(format) => decode(format, text.as_str()),
        },
    }
}

/// Encodes `config` for the file at `path`, in the format that the suffix
/// of `path` selects, and returns the text that the caller is to write
/// there in place of whatever the file held.
pub fn save_config<T: serde::Serialize>(path: &str, config: &T) -> (report: Result<
    String,
    ConfigError,
>)
    ensures
        save_report(path@, config, report),
{
    match Format::from_path(path) {
        None => Err(ConfigError::UnsupportedFormat),
        Some(format) => encode(format, config),
    }
}

/// After a successful read, a load is refused as unsupported exactly when
/// the path ends with none of the three suffixes; no decoder's answer is
/// ever reported that way.
pub proof fn lemma_load_refuses_exactly_unknown_suffixes<T: serde::de::DeserializeOwned>(
    path: Seq<char>,
    text: String,
    report: Result<T, ConfigError>,
)
    requires
        load_report(path, Ok(text), report),
    ensures
        report == Err::<T, ConfigError>(ConfigError::UnsupportedFormat) <==> forall|format: Format|
            !(#[trigger] format.suffix()).is_suffix_of(path),
{
    lemma_format_of_none(path);
}

/// A save is refused as unsupported exactly when the path ends with none
/// of the three suffixes: the same paths that a load refuses.
pub proof fn lemma_save_refuses_exactly_unknown_suffixes<T: serde::Serialize>(
    path: Seq<char>,
    config: &T,
    report: Result<String, ConfigError>,
)
    requires
        save_report(path, config, report),
    ensures
        report == Err::<String, ConfigError>(ConfigError::UnsupportedFormat) <==> forall|
            format: Format,
        |
            !(#[trigger] format.suffix()).is_suffix_of(path),
{
    lemma_format_of_none(path);
}

/// A save and a load on one path use one format: where the save yields
/// text, the path selects a format, the text is the answer of that
/// format's encoder, and a load that has read the file reports the answer
/// of that format's decoder, never a refusal of the suffix.
pub proof fn lemma_saved_path_is_decoded_on_load<S: serde::Serialize, T: serde::de::DeserializeOwned>(
    path: Seq<char>,
    config: &S,
    saved: Result<String, ConfigError>,
    text: String,
    loaded: Result<T, ConfigError>,
)
    requires
        save_report(path, config, saved),
        saved is Ok,
        load_report(path, Ok(text), loaded),
    ensures
        format_of(path) matches Some(format) && encode_outcome(format, config, saved)
            && decode_outcome(format, text@, loaded),
        loaded matches Err(error) ==> error is Decode,
{
}

} // verus!
