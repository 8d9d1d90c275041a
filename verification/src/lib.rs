//! A process-local façade in front of the MathCAT mathematical-accessibility
//! rendering engine.
//!
//! The façade has three responsibilities: an initialization protocol that
//! resolves a rules directory and establishes a baseline preference profile,
//! a preference-mutation pathway whose validation is delegated to the engine
//! but whose sequencing and error surfacing are owned here, and a render
//! pathway that collapses engine failures into sentinel-prefixed strings for
//! boundaries that cannot carry structured errors.

use vstd::prelude::*;

pub mod messages;
pub mod profile;
pub mod session;

verus! {

/// The rules directory that the resolution order yields: the explicit
/// argument when present and non-empty, else the environment fallback,
/// else nothing.
pub open spec fn resolved_rules_path(
    explicit: Option<Seq<char>>,
    env_value: Option<Seq<char>>,
) -> Option<Seq<char>> {
    match explicit {
        Some(p) => if p.len() > 0 {
            Some(p)
        } else {
            env_value
        },
        None => env_value,
    }
}

/// The view of an optional owned string.
pub open spec fn opt_view(o: Option<String>) -> Option<Seq<char>> {
    match o {
        Some(s) => Some(s@),
        None => None,
    }
}

/// Picks the rules directory: the explicit argument if it is present and
/// non-empty, otherwise the value read from the environment fallback,
/// otherwise the configuration-missing error.
pub fn resolve_rules_path(explicit: Option<String>, env_value: Option<String>) -> (r: Result<
    String,
    String,
>)
    ensures
        r is Ok <==> resolved_rules_path(opt_view(explicit), opt_view(env_value)) is Some,
        (r matches Ok(p) ==> Some(p@) == resolved_rules_path(
            opt_view(explicit),
            opt_view(env_value),
        )),
        (r matches Err(m) ==> m@ == messages::missing_config_message()),
{
    let chosen: Option<String> = match explicit {
        Some(p) => if p.as_str().is_empty() {
            env_value
        } else {
            Some(p)
        },
        None => env_value,
    };
    match chosen {
        Some(p) => Ok(p),
        None => Err(messages::build_missing_config_message()),
    }
}

/// Normalizes the engine's verdict on one preference: acceptance becomes a
/// confirmation naming the key and value, rejection becomes an error string
/// naming the offending key and the engine's description.
pub fn preference_report(key: &str, value: &str, outcome: Result<(), String>) -> (r: Result<
    String,
    String,
>)
    ensures
        r is Ok <==> outcome is Ok,
        (r matches Ok(m) ==> m@ == messages::pref_success_message(key@, value@)),
        (outcome matches Err(d) ==> (r matches Err(m) && m@ == messages::pref_failure_message(
            key@,
            d@,
        ))),
{
    match outcome {
        Ok(()) => Ok(messages::build_pref_success_message(key, value)),
        Err(desc) => Err(messages::build_pref_failure_message(key, desc.as_str())),
    }
}

/// Decides the render pathway after the document-load outcome: a failed
/// load yields the sentinel-prefixed abort string and rendering must not
/// be attempted; a successful load yields nothing and rendering proceeds.
pub fn after_load(load_outcome: Result<(), String>) -> (r: Option<String>)
    ensures
        r is Some <==> load_outcome is Err,
        (load_outcome matches Err(d) ==> (r matches Some(m) && m@
            == messages::render_error_message(d@))),
{
    match load_outcome {
        Ok(()) => None,
        Err(desc) => Some(messages::build_render_error_message(desc.as_str())),
    }
}

/// Collapses the render pathway's outcome into the single success-typed
/// string the boundary can carry: rendered text verbatim on success, the
/// sentinel-prefixed failure description otherwise.
pub fn speech_report(outcome: Result<String, String>) -> (r: String)
    ensures
        (outcome matches Ok(s) ==> r@ == s@),
        (outcome matches Err(d) ==> r@ == messages::render_error_message(d@)),
{
    match outcome {
        Ok(speech) => speech,
        Err(desc) => messages::build_render_error_message(desc.as_str()),
    }
}

} // verus!
