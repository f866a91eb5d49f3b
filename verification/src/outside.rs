//! Trusted declarations for the outside crates the library leans on.
//!
//! Each item here is believed, not verified: its contract states only what
//! the outside crate's source and documentation show. Everything downstream
//! of these contracts is proved.

use vstd::prelude::*;

verus! {

/// serde_json's document type, opaque to the verifier. Values of it are
/// carried through the card pipeline but never inspected by verified code.
#[verifier::external_type_specification]
#[verifier::external_body]
pub struct ExJsonValue(serde_json::Value);

/// What minijinja renders for a template and a set of named string bindings:
/// `None` when the template does not parse or rendering fails, otherwise the
/// rendered text. Rendering is a function of the two arguments alone.
pub uninterp spec fn spec_rendered(template: Seq<char>, ctx: Seq<(Seq<char>, Seq<char>)>) -> Option<
    Seq<char>,
>;

/// The bindings a context vector stands for: each pair as its character views.
pub open spec fn spec_pairs_view(ctx: Seq<(String, String)>) -> Seq<(Seq<char>, Seq<char>)> {
    ctx.map_values(|p: (String, String)| (p.0@, p.1@))
}

/// Relies on minijinja's `Environment::render_str`: parses `template` and
/// renders it with the given named string variables. The default environment
/// has no source of time or randomness, so the outcome depends on the
/// template text and the bindings alone.
#[verifier::external_body]
pub fn render_template_str(template: &str, ctx: &Vec<(String, String)>) -> (r: Option<String>)
    ensures
        match r {
            Some(s) => spec_rendered(template@, spec_pairs_view(ctx@)) == Some(s@),
            None => spec_rendered(template@, spec_pairs_view(ctx@)) is None,
        },
{
    let env = minijinja::Environment::new();
    let map: std::collections::BTreeMap<&str, &str> = ctx.iter().map(
        |p: &(String, String)| (p.0.as_str(), p.1.as_str()),
    ).collect();
    env.render_str(template, map).ok()
}

/// Whether serde_json accepts a text as a JSON document. Parsing is a
/// function of the text alone.
pub uninterp spec fn spec_json_parses(s: Seq<char>) -> bool;

/// Relies on serde_json's `from_str::<Value>`: returns the parsed document,
/// or `None` exactly when the text is not valid JSON.
#[verifier::external_body]
pub fn parse_json(s: &str) -> (r: Option<serde_json::Value>)
    ensures
        r is Some <==> spec_json_parses(s@),
{
    serde_json::from_str::<serde_json::Value>(s).ok()
}

/// Relies on serde_json's `Value::get` and `Value::clone`: returns the value
/// under the document's `"dsl"` key when the document is an object that has
/// one, and the document itself otherwise. Nothing further is assumed of the
/// opaque result.
#[verifier::external_body]
pub fn unwrap_dsl(v: serde_json::Value) -> serde_json::Value {
    match v.get("dsl") {
        Some(inner) => inner.clone(),
        None => v,
    }
}

/// Relies on serde_json's `Value::String`: wraps a text as a JSON string
/// value, an operation that cannot fail.
#[verifier::external_body]
pub fn json_text_value(s: &str) -> serde_json::Value {
    serde_json::Value::String(s.to_owned())
}

/// Relies on rand's `thread_rng` and `Rng::gen`: a fresh pseudo-random word.
/// Nothing holds of the result, and two calls may differ.
#[verifier::external_body]
pub fn random_u64() -> u64 {
    rand::Rng::gen::<u64>(&mut rand::thread_rng())
}

/// Relies on chrono's `From<SystemTime>` conversion and
/// `DateTime::timestamp`: the wall clock as whole seconds since the Unix
/// epoch, ignoring leap seconds. The conversion handles a clock set before
/// the epoch (the seconds come out negative) instead of panicking on it.
/// The result depends on when the call runs, so nothing holds of it.
#[verifier::external_body]
pub fn now_unix_seconds() -> i64 {
    chrono::DateTime::<chrono::Utc>::from(std::time::SystemTime::now()).timestamp()
}

} // verus!
