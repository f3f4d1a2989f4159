//! The boundary to the outside crates that the loader leans on: liquid for
//! template rendering, serde_json for JSON parsing, base64 for credential
//! segments, and sha2 for the credential digest. Each item here is trusted:
//! its contract is believed, not proved.

use vstd::prelude::*;
use crate::json::JsonValue;
use sha2::Digest;

verus! {

#[verifier::external_type_specification]
#[verifier::external_body]
pub struct ExSerdeValue(serde_json::Value);

/// What serde_json's parser yields for a given input text, carried over into
/// the library's own value form; `None` where the text is not valid JSON or
/// holds a number outside `i64`.
pub uninterp spec fn parsed_json(s: Seq<char>) -> Option<JsonValue>;

/// Relies on serde_json::from_str: parsing is a deterministic function of
/// the input text alone.
#[verifier::external_body]
pub fn parse_json(s: &str) -> (r: Option<JsonValue>)
    ensures
        r == parsed_json(s@),
{
    serde_json::from_str::<serde_json::Value>(s).ok().and_then(convert_json)
}

/// Carries a serde_json value tree over into the library's own form, one arm
/// per variant; a number outside `i64` yields `None`. This is the recursive
/// conversion step of `parse_json` above and has no callers of its own.
#[verifier::external_body]
fn convert_json(v: serde_json::Value) -> (r: Option<JsonValue>) {
    match v {
        serde_json::Value::Null => Some(JsonValue::Null),
        serde_json::Value::Bool(b) => Some(JsonValue::Bool(b)),
        serde_json::Value::Number(n) => Some(JsonValue::Int(n.as_i64()?)),
        serde_json::Value::String(s) => Some(JsonValue::Str(s)),
        serde_json::Value::Array(a) => Some(JsonValue::Array(
            a.into_iter().map(convert_json).collect::<Option<Vec<_>>>()?,
        )),
        serde_json::Value::Object(m) => Some(JsonValue::Object(
            m.into_iter().map(|(k, v)| Some((k, convert_json(v)?))).collect::<Option<Vec<_>>>()?,
        )),
    }
}

/// What base64's URL-safe, unpadded decoder yields for a given input text:
/// a deterministic function of the characters alone, `None` on invalid input.
pub uninterp spec fn b64url_decoded(s: Seq<char>) -> Option<Seq<u8>>;

/// Relies on base64::decode_config with the URL_SAFE_NO_PAD config.
#[verifier::external_body]
pub fn b64url_decode(s: &Vec<char>) -> (r: Option<Vec<u8>>)
    ensures
        match r {
            Some(bytes) => b64url_decoded(s@) == Some(bytes@),
            None => b64url_decoded(s@) is None,
        },
{
    let text: String = s.iter().collect();
    base64::decode_config(text.as_str(), base64::URL_SAFE_NO_PAD).ok()
}

/// The SHA-256 digest of a byte sequence: a deterministic function of the
/// input bytes alone.
pub uninterp spec fn sha256_of(data: Seq<u8>) -> Seq<u8>;

/// Relies on sha2::Sha256::digest: 32 bytes of output, depending on the
/// input bytes alone.
#[verifier::external_body]
pub fn sha256(data: &Vec<u8>) -> (r: Vec<u8>)
    ensures
        r@ == sha256_of(data@),
        r@.len() == 32,
{
    sha2::Sha256::digest(data.as_slice()).to_vec()
}

/// Relies on liquid's ParserBuilder::build, Parser::parse and
/// Template::render: parses `source` as a template and renders it against
/// the given variables. Which text or error comes back is not modelled:
/// stdlib filters may draw on more than the arguments (the clock, a locale),
/// so every caller must hold for any outcome.
#[verifier::external_body]
pub fn render_template(source: &str, vars: &Vec<(String, String)>) -> (r: Result<
    String,
    String,
>) {
    let mut globals = liquid::Object::new();
    for (k, v) in vars.iter() {
        globals.insert(
            liquid::model::KString::from_string(k.clone()),
            liquid::model::Value::scalar(v.clone()),
        );
    }
    let parser = liquid::ParserBuilder::with_stdlib().build().map_err(|e| e.to_string())?;
    let template = parser.parse(source).map_err(|e| e.to_string())?;
    template.render(&globals).map_err(|e| e.to_string())
}

} // verus!
