use mathcat_facade::messages;
use mathcat_facade::profile;
use mathcat_facade::session::InitSession;
use mathcat_facade::{preference_report, resolve_rules_path, speech_report};

#[test]
fn resolve_fails_without_any_source() {
    let r = resolve_rules_path(None, None);
    assert_eq!(
        r,
        Err("No rules path provided and MATHCAT_RULES_DIR not set".to_string())
    );
    assert!(r.unwrap_err().contains("not set"));
}

#[test]
fn resolve_empty_explicit_falls_back_to_environment() {
    let r = resolve_rules_path(Some(String::new()), Some("/env/rules".to_string()));
    assert_eq!(r, Ok("/env/rules".to_string()));
}

#[test]
fn resolve_empty_explicit_without_environment_fails() {
    let r = resolve_rules_path(Some(String::new()), None);
    assert!(r.unwrap_err().contains("not set"));
}

#[test]
fn resolve_prefers_explicit_path() {
    let r = resolve_rules_path(Some("/given".to_string()), Some("/env/rules".to_string()));
    assert_eq!(r, Ok("/given".to_string()));
}

#[test]
fn resolve_uses_environment_when_no_explicit_path() {
    let r = resolve_rules_path(None, Some("/env/rules".to_string()));
    assert_eq!(r, Ok("/env/rules".to_string()));
}

#[test]
fn default_profile_has_sixteen_entries() {
    let profile = profile::default_profile();
    assert_eq!(profile.len(), 16);
}

#[test]
fn default_profile_order_is_deterministic() {
    let profile = profile::default_profile();
    assert_eq!(profile[0], ("Impairment".to_string(), "Blindness".to_string()));
    assert_eq!(profile[1], ("Language".to_string(), "en".to_string()));
    assert_eq!(profile[2], ("DecimalSeparator".to_string(), "Auto".to_string()));
    assert_eq!(
        profile[3],
        ("SpeechOverrides_CapitalLetters".to_string(), String::new())
    );
    assert_eq!(profile[4], ("Verbosity".to_string(), "Verbose".to_string()));
    assert_eq!(profile[5], ("IntentErrorRecovery".to_string(), "Error".to_string()));
    assert_eq!(profile[6], ("SpeechStyle".to_string(), "ClearSpeak".to_string()));
    assert_eq!(profile[7], ("SubjectArea".to_string(), "General".to_string()));
    assert_eq!(profile[8], ("Chemistry".to_string(), "SimpleSpeak".to_string()));
    assert_eq!(profile[9], ("BrailleCode".to_string(), "Nemeth".to_string()));
    assert_eq!(profile[10], ("TTS".to_string(), "None".to_string()));
    assert_eq!(profile[11], ("NavVerbosity".to_string(), "Verbose".to_string()));
    assert_eq!(profile[12], ("NavMode".to_string(), "Enhanced".to_string()));
    assert_eq!(profile[13], ("MathRate".to_string(), "80".to_string()));
    assert_eq!(profile[14], ("CapitalLetters_Beep".to_string(), "true".to_string()));
    assert_eq!(profile[15], ("Bookmark".to_string(), "false".to_string()));
}

#[test]
fn default_profile_keys_are_pairwise_distinct() {
    let profile = profile::default_profile();
    for i in 0..profile.len() {
        for j in 0..profile.len() {
            if i != j {
                assert_ne!(profile[i].0, profile[j].0);
            }
        }
    }
}

#[test]
fn accepted_preference_reports_key_and_value() {
    let r = preference_report("Verbosity", "Terse", Ok(()));
    let msg = r.unwrap();
    assert_eq!(msg, "Preference Verbosity set to Terse");
    assert!(msg.contains("Verbosity") && msg.contains("Terse"));
}

#[test]
fn rejected_preference_reports_the_key() {
    let r = preference_report(
        "Verbosity",
        "Shouty",
        Err("no such value for Verbosity".to_string()),
    );
    let msg = r.unwrap_err();
    assert_eq!(
        msg,
        "Failed to set preference Verbosity: no such value for Verbosity"
    );
    assert!(msg.contains("Verbosity"));
}

#[test]
fn failed_load_aborts_the_render_pathway() {
    let abort = mathcat_facade::after_load(Err("invalid MathML".to_string()));
    assert_eq!(abort, Some("-!ERROR!- invalid MathML".to_string()));
}

#[test]
fn successful_load_lets_rendering_proceed() {
    assert_eq!(mathcat_facade::after_load(Ok(())), None);
}

#[test]
fn successful_render_is_returned_verbatim() {
    let speech = speech_report(Ok("two plus two".to_string()));
    assert_eq!(speech, "two plus two");
    assert!(!speech.starts_with("-!ERROR!- "));
}

#[test]
fn failed_render_carries_the_sentinel_and_reason() {
    let speech = speech_report(Err("could not parse MathML".to_string()));
    assert_eq!(speech, "-!ERROR!- could not parse MathML");
    assert!(speech.starts_with("-!ERROR!- "));
    assert!(speech.contains("could not parse MathML"));
}

#[test]
fn init_report_without_rejections_is_the_plain_confirmation() {
    let msg = messages::build_init_report_message("/rules", &Vec::new());
    assert_eq!(msg, "MathCAT initialized with rules at: /rules");
    assert!(msg.contains("/rules"));
}

#[test]
fn init_report_lists_rejected_default_keys() {
    let rejected = vec!["TTS".to_string(), "NavMode".to_string()];
    let msg = messages::build_init_report_message("/rules", &rejected);
    assert_eq!(
        msg,
        "MathCAT initialized with rules at: /rules (defaults not accepted: TTS, NavMode)"
    );
}

#[test]
fn accepting_stub_session_applies_all_sixteen_defaults_in_order() {
    let mut session = InitSession::begin("/rules".to_string());
    let mut seen: Vec<(String, String)> = Vec::new();
    while let Some((key, value)) = session.next_preference() {
        seen.push((key, value));
        session.record_outcome(Ok(()));
    }
    assert_eq!(seen, profile::default_profile());
    assert_eq!(seen.len(), 16);
    assert_eq!(session.finish(), "MathCAT initialized with rules at: /rules");
}

#[test]
fn rejecting_stub_session_reports_the_rejected_keys() {
    let mut session = InitSession::begin("/rules".to_string());
    while let Some((key, _value)) = session.next_preference() {
        if key == "TTS" || key == "Bookmark" {
            session.record_outcome(Err(format!("no preference named {}", key)));
        } else {
            session.record_outcome(Ok(()));
        }
    }
    assert_eq!(
        session.finish(),
        "MathCAT initialized with rules at: /rules (defaults not accepted: TTS, Bookmark)"
    );
}

#[test]
fn scenario_full_session_against_an_accepting_stub() {
    // No explicit path and no environment fallback: initialization fails.
    let err = resolve_rules_path(None, None).unwrap_err();
    assert!(err.contains("not set"));

    // A stub engine that accepts "/rules" and every default preference:
    // initialization succeeds, names the path, and the profile it applies
    // has exactly sixteen entries.
    let path = resolve_rules_path(Some("/rules".to_string()), None).unwrap();
    assert_eq!(path, "/rules");
    assert_eq!(profile::default_profile().len(), 16);
    let msg = messages::build_init_report_message(&path, &Vec::new());
    assert!(msg.contains("/rules"));

    // A stub engine that loads the document and renders "two plus two":
    // the render pathway returns the text verbatim.
    assert_eq!(speech_report(Ok("two plus two".to_string())), "two plus two");
}

#[test]
fn config_failure_message_carries_engine_description() {
    let msg = messages::build_config_failure_message("rules directory does not exist");
    assert_eq!(
        msg,
        "Failed to set rules dir: rules directory does not exist"
    );
}
