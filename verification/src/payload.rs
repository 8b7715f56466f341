//! Binary content that the front end sends as base64 text.

use crate::error::{ErrorKind, ShellError};
use base64::Engine;
use vstd::prelude::*;

verus! {

/// The reason for which `base64` rejects an input.
#[verifier::external_type_specification]
#[verifier::external_body]
pub struct ExDecodeError(base64::DecodeError);

/// The bytes that `text` stands for in standard base64 (the alphabet of
/// RFC 4648 with `+` and `/`, canonical padding required), or `None` where
/// `text` is no such encoding.
pub uninterp spec fn standard_base64(text: Seq<char>) -> Option<Seq<u8>>;

/// Calls `Engine::decode` of `base64` on its `STANDARD` engine. The call
/// computes from `text` alone: it yields the decoded bytes exactly where
/// `text` is well-formed, and a `DecodeError` otherwise.
#[verifier::external_body]
fn decode_standard(text: &str) -> (decoded: Result<Vec<u8>, base64::DecodeError>)
    ensures
        match decoded {
            Ok(bytes) => standard_base64(text@) == Some(bytes@),
            Err(_) => standard_base64(text@) is None,
        },
{
    base64::engine::general_purpose::STANDARD.decode(text)
}

/// Calls `Display` of `base64::DecodeError`: the reason in words. Nothing
/// is claimed of the wording.
#[verifier::external_body]
fn describe(reason: &base64::DecodeError) -> (text: String) {
    reason.to_string()
}

/// What is said before the reason for which a payload was rejected.
pub open spec fn decode_label() -> Seq<char> {
    "base64 decode: "@
}

/// What a decoded payload comes to: the bytes to write, or an encode
/// failure that names the reason.
pub fn payload_result(decoded: Result<Vec<u8>, String>) -> (r: Result<Vec<u8>, ShellError>)
    ensures
        match decoded {
            Ok(bytes) => r == Ok::<Vec<u8>, ShellError>(bytes),
            Err(reason) => r matches Err(e) && e.is(ErrorKind::Encode, decode_label() + reason@),
        },
{
    match decoded {
        Ok(bytes) => Ok(bytes),
        Err(reason) => Err(ShellError::labelled(ErrorKind::Encode, "base64 decode: ", reason.as_str())),
    }
}

/// Decodes the payload of a binary write. The bytes returned are what is to
/// be written; on a payload that is no well-formed base64 the command ends
/// here with an encode failure, before any file is touched.
pub fn write_binary_file(base64_data: &str) -> (r: Result<Vec<u8>, ShellError>)
    ensures
        match standard_base64(base64_data@) {
            Some(bytes) => r matches Ok(decoded) && decoded@ == bytes,
            None => r matches Err(e) && e.kind == ErrorKind::Encode && decode_label().is_prefix_of(
                e.message@,
            ),
        },
{
    match decode_standard(base64_data) {
        Ok(bytes) => payload_result(Ok(bytes)),
        Err(reason) => payload_result(Err(describe(&reason))),
    }
}

} // verus!
