//! The fixed message shapes of the façade: every string handed back to a
//! caller is one of these, so each shape has a spec function and a verified
//! builder that produces exactly it.

use vstd::prelude::*;
use vstd::string::StringExecFns;

verus! {

/// The error returned when neither an explicit rules path nor the
/// environment fallback supplied a rules directory.
pub open spec fn missing_config_message() -> Seq<char> {
    "No rules path provided and MATHCAT_RULES_DIR not set"@
}

/// The prefix of every initialization failure caused by the engine
/// rejecting the rules directory.
pub open spec fn config_failure_prefix() -> Seq<char> {
    "Failed to set rules dir: "@
}

/// The initialization failure message for an engine description `desc`.
pub open spec fn config_failure_message(desc: Seq<char>) -> Seq<char> {
    config_failure_prefix() + desc
}

/// The confirmation returned by a successful initialization with rules
/// directory `path`.
pub open spec fn init_success_message(path: Seq<char>) -> Seq<char> {
    "MathCAT initialized with rules at: "@ + path
}

/// The confirmation returned when the engine accepts preference `key` =
/// `value`.
pub open spec fn pref_success_message(key: Seq<char>, value: Seq<char>) -> Seq<char> {
    "Preference "@ + key + " set to "@ + value
}

/// The prefix of every rejection message for preference `key`: it names the
/// offending key.
pub open spec fn pref_failure_prefix(key: Seq<char>) -> Seq<char> {
    "Failed to set preference "@ + key + ": "@
}

/// The rejection message for preference `key` with engine description
/// `desc`.
pub open spec fn pref_failure_message(key: Seq<char>, desc: Seq<char>) -> Seq<char> {
    pref_failure_prefix(key) + desc
}

/// The sentinel that marks a render-pathway failure inside an otherwise
/// success-typed string.
pub open spec fn render_error_sentinel() -> Seq<char> {
    "-!ERROR!- "@
}

/// The render-pathway failure string for an engine description `desc`.
pub open spec fn render_error_message(desc: Seq<char>) -> Seq<char> {
    render_error_sentinel() + desc
}

/// The configuration-missing error says the environment fallback is not
/// set: its last seven characters read `not set`.
pub proof fn lemma_missing_config_message_mentions_not_set()
    ensures
        missing_config_message().subrange(45, 52) == "not set"@,
{
    reveal_strlit("No rules path provided and MATHCAT_RULES_DIR not set");
    reveal_strlit("not set");
    assert(missing_config_message().subrange(45, 52) =~= "not set"@);
}

/// A successful initialization confirmation carries the resolved rules
/// path verbatim, right after its fixed lead-in.
pub proof fn lemma_init_success_message_contains_path(path: Seq<char>)
    ensures
        init_success_message(path).subrange(35, 35 + path.len() as int) == path,
{
    reveal_strlit("MathCAT initialized with rules at: ");
    assert(init_success_message(path).subrange(35, 35 + path.len() as int) =~= path);
}

/// A preference confirmation names both the key and the value.
pub proof fn lemma_pref_success_message_contains_key_and_value(key: Seq<char>, value: Seq<char>)
    ensures
        pref_success_message(key, value).subrange(11, 11 + key.len() as int) == key,
        pref_success_message(key, value).subrange(
            19 + key.len() as int,
            19 + key.len() + value.len() as int,
        ) == value,
{
    reveal_strlit("Preference ");
    reveal_strlit(" set to ");
    assert(pref_success_message(key, value).subrange(11, 11 + key.len() as int) =~= key);
    assert(pref_success_message(key, value).subrange(
        19 + key.len() as int,
        19 + key.len() + value.len() as int,
    ) =~= value);
}

/// A preference rejection names the offending key, right after its fixed
/// lead-in.
pub proof fn lemma_pref_failure_message_contains_key(key: Seq<char>, desc: Seq<char>)
    ensures
        pref_failure_message(key, desc).subrange(25, 25 + key.len() as int) == key,
{
    reveal_strlit("Failed to set preference ");
    assert(pref_failure_message(key, desc).subrange(25, 25 + key.len() as int) =~= key);
}

/// Every render failure string begins with the fixed sentinel, whatever
/// the engine's description, and carries that description verbatim after
/// it.
pub proof fn lemma_render_error_message_begins_with_sentinel(desc: Seq<char>)
    ensures
        render_error_sentinel().is_prefix_of(render_error_message(desc)),
        render_error_message(desc).skip(render_error_sentinel().len() as int) == desc,
{
    assert(render_error_message(desc).take(render_error_sentinel().len() as int)
        =~= render_error_sentinel());
    assert(render_error_message(desc).skip(render_error_sentinel().len() as int) =~= desc);
}

pub fn build_missing_config_message() -> (r: String)
    ensures
        r@ == missing_config_message(),
{
    "No rules path provided and MATHCAT_RULES_DIR not set".to_owned()
}

pub fn build_config_failure_message(desc: &str) -> (r: String)
    ensures
        r@ == config_failure_message(desc@),
{
    let mut r = "Failed to set rules dir: ".to_owned();
    r.append(desc);
    r
}

pub fn build_init_success_message(path: &str) -> (r: String)
    ensures
        r@ == init_success_message(path@),
{
    let mut r = "MathCAT initialized with rules at: ".to_owned();
    r.append(path);
    r
}

pub fn build_pref_success_message(key: &str, value: &str) -> (r: String)
    ensures
        r@ == pref_success_message(key@, value@),
{
    let mut r = "Preference ".to_owned();
    r.append(key);
    r.append(" set to ");
    r.append(value);
    proof {
        assert(r@ =~= pref_success_message(key@, value@));
    }
    r
}

pub fn build_pref_failure_message(key: &str, desc: &str) -> (r: String)
    ensures
        r@ == pref_failure_message(key@, desc@),
{
    let mut r = "Failed to set preference ".to_owned();
    r.append(key);
    r.append(": ");
    r.append(desc);
    proof {
        assert(r@ =~= pref_failure_message(key@, desc@));
    }
    r
}

/// The rejected default keys joined with `", "`, in order.
pub open spec fn joined_keys(keys: Seq<Seq<char>>) -> Seq<char>
    decreases keys.len(),
{
    if keys.len() == 0 {
        Seq::empty()
    } else if keys.len() == 1 {
        keys[0]
    } else {
        joined_keys(keys.drop_last()) + ", "@ + keys.last()
    }
}

/// The message of a completed initialization: the plain confirmation when
/// every default preference was accepted, else the confirmation followed by
/// the list of rejected default keys.
pub open spec fn init_report_message(path: Seq<char>, rejected: Seq<Seq<char>>) -> Seq<char> {
    if rejected.len() == 0 {
        init_success_message(path)
    } else {
        init_success_message(path) + " (defaults not accepted: "@ + joined_keys(rejected) + ")"@
    }
}

/// The views of a list of owned strings.
pub open spec fn views(keys: Seq<String>) -> Seq<Seq<char>> {
    keys.map_values(|k: String| k@)
}

pub fn join_keys(keys: &Vec<String>) -> (r: String)
    ensures
        r@ == joined_keys(views(keys@)),
{
    let mut r = String::new();
    let mut i: usize = 0;
    while i < keys.len()
        invariant
            i <= keys@.len(),
            r@ == joined_keys(views(keys@).take(i as int)),
        decreases keys@.len() - i,
    {
        if i > 0 {
            r.append(", ");
        }
        r.append(keys[i].as_str());
        proof {
            let vs = views(keys@);
            assert(vs.take(i + 1).drop_last() =~= vs.take(i as int));
            assert(vs.take(i + 1).last() == keys@[i as int]@);
            assert(r@ =~= joined_keys(vs.take(i + 1)));
        }
        i = i + 1;
    }
    proof {
        assert(views(keys@).take(keys@.len() as int) =~= views(keys@));
    }
    r
}

pub fn build_init_report_message(path: &str, rejected_keys: &Vec<String>) -> (r: String)
    ensures
        r@ == init_report_message(path@, views(rejected_keys@)),
        init_success_message(path@).is_prefix_of(r@),
{
    let mut r = build_init_success_message(path);
    if rejected_keys.len() > 0 {
        r.append(" (defaults not accepted: ");
        let joined = join_keys(rejected_keys);
        r.append(joined.as_str());
        r.append(")");
        proof {
            assert(r@ =~= init_report_message(path@, views(rejected_keys@)));
            assert(init_success_message(path@).is_prefix_of(r@));
        }
    }
    r
}

pub fn build_render_error_message(desc: &str) -> (r: String)
    ensures
        r@ == render_error_message(desc@),
{
    let mut r = "-!ERROR!- ".to_owned();
    r.append(desc);
    r
}

} // verus!
