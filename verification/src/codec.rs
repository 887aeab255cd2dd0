//! Wire codec: a typed message value to and from its JSON text fragment.
//!
//! A message travels as one line of compact JSON. The serialization itself is
//! `serde_json`'s; this module pins down what the library relies on: encoding
//! a value always succeeds and yields its compact text, which contains no raw
//! newline character (so a newline can terminate a frame unambiguously);
//! parsing is a function of the text alone, and parsing the compact text of a
//! value yields that value back.
use vstd::prelude::*;

verus! {

/// The compact JSON text that serialization produces for `v`. The text is a
/// function of the value alone; its exact shape is `serde_json`'s business.
pub uninterp spec fn json_text_of(v: serde_json::Value) -> Seq<char>;

/// What parsing the text `s` yields: the parsed value, or nothing where the
/// parser rejects the text. Parsing is deterministic in the text alone (the
/// grammar and the parser's fixed recursion limit are `serde_json`'s).
pub uninterp spec fn json_parse_of(s: Seq<char>) -> Option<serde_json::Value>;

#[verifier::external_type_specification]
#[verifier::external_body]
pub struct ExValue(serde_json::Value);

#[verifier::external_type_specification]
#[verifier::external_body]
pub struct ExJsonError(serde_json::Error);

/// Relies on `serde_json::to_string`: on a `Value` it always succeeds (its
/// documented failure cases — a failing `Serialize` impl, non-string map keys
/// — cannot arise from a `Value`) and returns the compact JSON text of the
/// value. The compact form emits no whitespace between tokens and escapes
/// every control character inside string literals, so the text holds no raw
/// newline.
#[verifier::external_body]
fn value_to_json(v: &serde_json::Value) -> (r: Result<String, serde_json::Error>)
    ensures
        r is Ok,
        r matches Ok(s) ==> s@ == json_text_of(*v) && !s@.contains('\n'),
{
    serde_json::to_string(v)
}

/// Relies on `serde_json::from_str::<Value>`: parsing is deterministic in the
/// text, so the call succeeds exactly where the text parses, returning the
/// parsed value; and a successful parse of the compact text of a value
/// returns that value (the parse of a deeply nested text may instead fail on
/// the recursion limit, which is likewise fixed).
#[verifier::external_body]
fn json_from_str(s: &str) -> (r: Result<serde_json::Value, serde_json::Error>)
    ensures
        r matches Ok(w) ==> json_parse_of(s@) == Some(w),
        r is Err ==> json_parse_of(s@) is None,
        r matches Ok(w) ==> (forall|v: serde_json::Value| s@ == #[trigger] json_text_of(v) ==> w == v),
{
    serde_json::from_str(s)
}

/// Relies on `serde_json::Error`'s `Display` impl, for a human-readable
/// description of an encoding failure.
#[verifier::external_body]
fn json_error_message(e: &serde_json::Error) -> (r: String) {
    format!("{}", e)
}

/// Why the codec refused a payload. A decoding failure keeps the exact
/// offending text for diagnostics.
#[derive(Debug)]
pub enum CodecError {
    EncodingError { detail: String },
    DecodingError { raw: String },
}

/// Serialize a message to its JSON text fragment. It always succeeds — every
/// `Value` is representable — and the fragment never holds a raw newline, so
/// it can stand between frame terminators on the wire.
pub fn encode(v: &serde_json::Value) -> (r: Result<String, CodecError>)
    ensures
        r is Ok,
        r matches Ok(s) ==> s@ == json_text_of(*v) && !s@.contains('\n'),
{
    match value_to_json(v) {
        Ok(s) => Ok(s),
        Err(e) => Err(CodecError::EncodingError { detail: json_error_message(&e) }),
    }
}

/// Parse a JSON text fragment back into a message value: the parsed value
/// exactly where the text parses, and otherwise a failure carrying the raw
/// text verbatim. The compact text of a value parses back to that value.
pub fn decode(text: String) -> (r: Result<serde_json::Value, CodecError>)
    ensures
        match json_parse_of(text@) {
            Some(v) => r == Ok::<serde_json::Value, CodecError>(v),
            None => r matches Err(e) && e matches CodecError::DecodingError { raw } && raw@
                == text@,
        },
        r matches Ok(w) ==> (forall|v: serde_json::Value| text@ == #[trigger] json_text_of(v) ==> w == v),
{
    match json_from_str(text.as_str()) {
        Ok(w) => Ok(w),
        Err(_) => Err(CodecError::DecodingError { raw: text }),
    }
}

} // verus!
