//! The three codecs behind one pair of functions, chosen by [`Format`].
//!
//! The codecs themselves are the `toml`, `serde_json` and `serde_yaml`
//! crates. What they make of a given text or value is theirs to decide, and
//! they run the `Serialize` or `Deserialize` implementation of the caller's
//! type. This module fixes which codec is asked and how its answer is
//! reported.

use vstd::prelude::*;
use vstd::string::to_string_from_display_ensures;
use crate::error::ConfigError;
use crate::format::Format;

verus! {

/// `toml::de::Error`, the failure of the TOML decoder, carried as an opaque
/// value.
#[verifier::external_type_specification]
#[verifier::external_body]
pub struct ExTomlDecodeError(toml::de::Error);

/// `toml::ser::Error`, the failure of the TOML encoder, carried as an opaque
/// value.
#[verifier::external_type_specification]
#[verifier::external_body]
pub struct ExTomlEncodeError(toml::ser::Error);

/// `serde_json::Error`, the failure of the JSON decoder and encoder, carried
/// as an opaque value.
#[verifier::external_type_specification]
#[verifier::external_body]
pub struct ExJsonError(serde_json::Error);

/// `serde_yaml::Error`, the failure of the YAML decoder and encoder, carried
/// as an opaque value.
#[verifier::external_type_specification]
#[verifier::external_body]
pub struct ExYamlError(serde_yaml::Error);

/// Calls `toml::de::from_str`. Nothing is claimed of the answer: it is the
/// decoder's reading of `text` as a `T`, or the decoder's error.
#[verifier::external_body]
fn toml_from_str<T: serde::de::DeserializeOwned>(text: &str) -> (answer: Result<
    T,
    toml::de::Error,
>) {
    toml::de::from_str(text)
}

/// Calls `serde_json::from_str`. Nothing is claimed of the answer: it is the
/// decoder's reading of `text` as a `T`, or the decoder's error.
#[verifier::external_body]
fn json_from_str<T: serde::de::DeserializeOwned>(text: &str) -> (answer: Result<
    T,
    serde_json::Error,
>) {
    serde_json::from_str(text)
}

/// Calls `serde_yaml::from_str`. Nothing is claimed of the answer: it is the
/// decoder's reading of `text` as a `T`, or the decoder's error.
#[verifier::external_body]
fn yaml_from_str<T: serde::de::DeserializeOwned>(text: &str) -> (answer: Result<
    T,
    serde_yaml::Error,
>) {
    serde_yaml::from_str(text)
}

/// Calls `toml::to_string`. Nothing is claimed of the answer: it is the
/// encoder's text for `value`, or the encoder's error.
#[verifier::external_body]
fn toml_to_string<T: serde::Serialize>(value: &T) -> (answer: Result<String, toml::ser::Error>) {
    toml::to_string(value)
}

/// Calls `serde_json::to_string`. Nothing is claimed of the answer: it is
/// the encoder's text for `value`, or the encoder's error.
#[verifier::external_body]
fn json_to_string<T: serde::Serialize>(value: &T) -> (answer: Result<String, serde_json::Error>) {
    serde_json::to_string(value)
}

/// Calls `serde_yaml::to_string`. Nothing is claimed of the answer: it is
/// the encoder's text for `value`, or the encoder's error.
#[verifier::external_body]
fn yaml_to_string<T: serde::Serialize>(value: &T) -> (answer: Result<String, serde_yaml::Error>) {
    serde_yaml::to_string(value)
}

/// How a decoder's answer is reported: its value unchanged, or a `Decode`
/// error carrying the message that the decoder's error prints.
pub open spec fn decode_report<T, E: core::fmt::Display>(
    answer: Result<T, E>,
    report: Result<T, ConfigError>,
) -> bool {
    match answer {
        Ok(value) => report == Ok::<T, ConfigError>(value),
        Err(cause) => report matches Err(ConfigError::Decode(message))
            && to_string_from_display_ensures::<E>(&cause, message),
    }
}

/// How an encoder's answer is reported: its text unchanged, or an `Encode`
/// error carrying the message that the encoder's error prints.
pub open spec fn encode_report<E: core::fmt::Display>(
    answer: Result<String, E>,
    report: Result<String, ConfigError>,
) -> bool {
    match answer {
        Ok(text) => report == Ok::<String, ConfigError>(text),
        Err(cause) => report matches Err(ConfigError::Encode(message))
            && to_string_from_display_ensures::<E>(&cause, message),
    }
}

/// Reports a decoder's answer.
pub fn decoded<T, E: core::fmt::Display>(answer: Result<T, E>) -> (report: Result<T, ConfigError>)
    ensures
        decode_report(answer, report),
{
    match answer {
        Ok(value) => Ok(value),
        Err(cause) => Err(ConfigError::Decode(cause.to_string())),
    }
}

/// Reports an encoder's answer.
pub fn encoded<E: core::fmt::Display>(answer: Result<String, E>) -> (report: Result<
    String,
    ConfigError,
>)
    ensures
        encode_report(answer, report),
{
    match answer {
        Ok(text) => Ok(text),
        Err(cause) => Err(ConfigError::Encode(cause.to_string())),
    }
}

/// Whether `answer` is something that `toml::de::from_str` gave when asked
/// to read `text` as a `T`. Which answers those are is the decoder's
/// affair: nothing is claimed of them, not even that the same text is
/// always read the same way.
pub closed spec fn toml_decoder_gave<T: serde::de::DeserializeOwned>(
    text: Seq<char>,
    answer: Result<T, toml::de::Error>,
) -> bool {
    exists|input: &str| input@ == text && call_ensures(toml_from_str::<T>, (input,), answer)
}

/// Whether `answer` is something that `serde_json::from_str` gave when asked
/// to read `text` as a `T`. Nothing is claimed of which answers those are.
pub closed spec fn json_decoder_gave<T: serde::de::DeserializeOwned>(
    text: Seq<char>,
    answer: Result<T, serde_json::Error>,
) -> bool {
    exists|input: &str| input@ == text && call_ensures(json_from_str::<T>, (input,), answer)
}

/// Whether `answer` is something that `serde_yaml::from_str` gave when asked
/// to read `text` as a `T`. Nothing is claimed of which answers those are.
pub closed spec fn yaml_decoder_gave<T: serde::de::DeserializeOwned>(
    text: Seq<char>,
    answer: Result<T, serde_yaml::Error>,
) -> bool {
    exists|input: &str| input@ == text && call_ensures(yaml_from_str::<T>, (input,), answer)
}

/// Whether `answer` is something that `toml::to_string` gave when asked to
/// write `value`. Which answers those are is the encoder's affair: nothing
/// is claimed of them, not even that the same value is always written the
/// same way.
pub closed spec fn toml_encoder_gave<T: serde::Serialize>(
    value: &T,
    answer: Result<String, toml::ser::Error>,
) -> bool {
    call_ensures(toml_to_string::<T>, (value,), answer)
}

/// Whether `answer` is something that `serde_json::to_string` gave when
/// asked to write `value`. Nothing is claimed of which answers those are.
pub closed spec fn json_encoder_gave<T: serde::Serialize>(
    value: &T,
    answer: Result<String, serde_json::Error>,
) -> bool {
    call_ensures(json_to_string::<T>, (value,), answer)
}

/// Whether `answer` is something that `serde_yaml::to_string` gave when
/// asked to write `value`. Nothing is claimed of which answers those are.
pub closed spec fn yaml_encoder_gave<T: serde::Serialize>(
    value: &T,
    answer: Result<String, serde_yaml::Error>,
) -> bool {
    call_ensures(yaml_to_string::<T>, (value,), answer)
}

/// What decoding `text` in `format` reports: the answer that the decoder of
/// that format, and no other, gave for exactly this text, reported as
/// [`decode_report`] says.
pub open spec fn decode_outcome<T: serde::de::DeserializeOwned>(
    format: Format,
    text: Seq<char>,
    report: Result<T, ConfigError>,
) -> bool {
    match format {
        Format::Toml => exists|answer: Result<T, toml::de::Error>|
            #[trigger] toml_decoder_gave(text, answer) && decode_report(answer, report),
        Format::Json => exists|answer: Result<T, serde_json::Error>|
            #[trigger] json_decoder_gave(text, answer) && decode_report(answer, report),
        Format::Yaml => exists|answer: Result<T, serde_yaml::Error>|
            #[trigger] yaml_decoder_gave(text, answer) && decode_report(answer, report),
    }
}

/// What encoding `value` in `format` reports: the answer that the encoder
/// of that format, and no other, gave for exactly this value, reported as
/// [`encode_report`] says.
pub open spec fn encode_outcome<T: serde::Serialize>(
    format: Format,
    value: &T,
    report: Result<String, ConfigError>,
) -> bool {
    match format {
        Format::Toml => exists|answer: Result<String, toml::ser::Error>|
            #[trigger] toml_encoder_gave(value, answer) && encode_report(answer, report),
        Format::Json => exists|answer: Result<String, serde_json::Error>|
            #[trigger] json_encoder_gave(value, answer) && encode_report(answer, report),
        Format::Yaml => exists|answer: Result<String, serde_yaml::Error>|
            #[trigger] yaml_encoder_gave(value, answer) && encode_report(answer, report),
    }
}

/// Decodes `text`, written in `format`, into a `T`, with the decoder of
/// that format and no other. Whether the text is accepted is the decoder's
/// decision: its value comes back unchanged, and its refusal comes back as
/// a `Decode` error with the decoder's message.
pub fn decode<T: serde::de::DeserializeOwned>(format: Format, text: &str) -> (report: Result<
    T,
    ConfigError,
>)
    ensures
        decode_outcome(format, text@, report),
        report matches Err(error) ==> error is Decode,
{
    match format {
        Format::Toml => {
            let answer = toml_from_str::<T>(text);
            assert(toml_decoder_gave(text@, answer));
            decoded(answer)
        },
        Format::Json => {
            let answer = json_from_str::<T>(text);
            assert(json_decoder_gave(text@, answer));
            decoded(answer)
        },
        Format::Yaml => {
            let answer = yaml_from_str::<T>(text);
            assert(yaml_decoder_gave(text@, answer));
            decoded(answer)
        },
    }
}

/// Encodes `value` as text in `format`, with the encoder of that format and
/// no other. Whether the value can be written is the encoder's decision:
/// its text comes back unchanged, and its refusal comes back as an `Encode`
/// error with the encoder's message.
pub fn encode<T: serde::Serialize>(format: Format, value: &T) -> (report: Result<
    String,
    ConfigError,
>)
    ensures
        encode_outcome(format, value, report),
        report matches Err(error) ==> error is Encode,
{
    match format {
        Format::Toml => {
            let answer = toml_to_string(value);
            assert(toml_encoder_gave(value, answer));
            encoded(answer)
        },
        Format::Json => {
            let answer = json_to_string(value);
            assert(json_encoder_gave(value, answer));
            encoded(answer)
        },
        Format::Yaml => {
            let answer = yaml_to_string(value);
            assert(yaml_encoder_gave(value, answer));
            encoded(answer)
        },
    }
}

} // verus!
