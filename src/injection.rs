//! Injections: alternate sources of a field's value, and their serialization.

use vstd::prelude::*;
use vstd::string::StringExecFns;

verus! {

/// Where an injected field takes its value from, instead of the caller's input.
#[derive(Debug, Clone, Copy, PartialEq, Eq, Structural)]
pub enum InjectionSource {
    /// An embedded literal.
    Static,
    /// An expression evaluated against the caller's input.
    Dynamic,
    /// A value of the request context, by name.
    Context,
    /// A value of the secret store, by name.
    Secret,
    /// A value generated at call time; carries no payload.
    Random,
}

#[verifier::external_type_specification]
#[verifier::external_body]
pub struct ExValue(serde_json::Value);

/// The JSON text that encodes a string as a JSON string literal.
pub uninterp spec fn json_string_of(s: Seq<char>) -> Seq<char>;

/// Relies on `serde_json::to_string` on a `str`: the JSON string literal that
/// encodes it. Serializing a `str` into memory has no failing case.
#[verifier::external_body]
pub(crate) fn json_string(s: &str) -> (r: String)
    ensures
        r@ == json_string_of(s@),
{
    serde_json::to_string(s).unwrap_or_default()
}

/// Relies on the `Display` impl of `serde_json::Value`: its compact JSON text.
#[verifier::external_body]
pub(crate) fn value_text(v: &serde_json::Value) -> (r: String) {
    v.to_string()
}

pub open spec fn source_tag(source: InjectionSource) -> Seq<char> {
    match source {
        InjectionSource::Static => "static"@,
        InjectionSource::Dynamic => "dynamic"@,
        InjectionSource::Context => "context"@,
        InjectionSource::Secret => "secret"@,
        InjectionSource::Random => "random"@,
    }
}

/// The serialized injection: a JSON object with the source tag, and a `data`
/// member holding the payload's JSON text only when there is a payload.
pub open spec fn injection_text(source: InjectionSource, payload: Option<Seq<char>>) -> Seq<char> {
    match payload {
        Some(p) => "{\"source\":\""@ + source_tag(source) + "\",\"data\":"@ + p + "}"@,
        None => "{\"source\":\""@ + source_tag(source) + "\"}"@,
    }
}

pub open spec fn opt_view(o: Option<&str>) -> Option<Seq<char>> {
    match o {
        Some(s) => Some(s@),
        None => None,
    }
}

fn tag_str(source: InjectionSource) -> (r: &'static str)
    ensures
        r@ == source_tag(source),
{
    match source {
        InjectionSource::Static => "static",
        InjectionSource::Dynamic => "dynamic",
        InjectionSource::Context => "context",
        InjectionSource::Secret => "secret",
        InjectionSource::Random => "random",
    }
}

/// Serializes an injection; `payload` is the JSON text of its value.
pub fn serialize_injection(source: InjectionSource, payload: Option<&str>) -> (r: String)
    ensures
        r@ == injection_text(source, opt_view(payload)),
{
    let mut out = String::from_str("{\"source\":\"");
    out.append(tag_str(source));
    match payload {
        Some(p) => {
            out.append("\",\"data\":");
            out.append(p);
            out.append("}");
        },
        None => {
            out.append("\"}");
        },
    }
    out
}

} // verus!
