//! The default accessibility profile: the fixed, ordered list of sixteen
//! preferences applied unconditionally at initialization to establish a
//! known baseline (blindness-oriented verbose speech, ClearSpeak style,
//! Nemeth braille, enhanced navigation).

use vstd::prelude::*;

verus! {

/// The sixteen (key, value) pairs of the default profile, in the order in
/// which initialization applies them. The keys are pairwise distinct, so
/// the order never makes one entry override another.
pub open spec fn default_profile_spec() -> Seq<(Seq<char>, Seq<char>)> {
    seq![
        ("Impairment"@, "Blindness"@),
        ("Language"@, "en"@),
        ("DecimalSeparator"@, "Auto"@),
        ("SpeechOverrides_CapitalLetters"@, ""@),
        ("Verbosity"@, "Verbose"@),
        ("IntentErrorRecovery"@, "Error"@),
        ("SpeechStyle"@, "ClearSpeak"@),
        ("SubjectArea"@, "General"@),
        ("Chemistry"@, "SimpleSpeak"@),
        ("BrailleCode"@, "Nemeth"@),
        ("TTS"@, "None"@),
        ("NavVerbosity"@, "Verbose"@),
        ("NavMode"@, "Enhanced"@),
        ("MathRate"@, "80"@),
        ("CapitalLetters_Beep"@, "true"@),
        ("Bookmark"@, "false"@),
    ]
}

/// Builds the default profile as owned strings, exactly the entries of
/// `default_profile_spec` in the same order.
pub fn default_profile() -> (r: Vec<(String, String)>)
    ensures
        r@.len() == default_profile_spec().len(),
        forall|i: int|
            0 <= i < r@.len() ==> (#[trigger] r@[i]).0@ == default_profile_spec()[i].0 && r@[i].1@
                == default_profile_spec()[i].1,
{
    let mut r: Vec<(String, String)> = Vec::new();
    r.push(("Impairment".to_owned(), "Blindness".to_owned()));
    r.push(("Language".to_owned(), "en".to_owned()));
    r.push(("DecimalSeparator".to_owned(), "Auto".to_owned()));
    r.push(("SpeechOverrides_CapitalLetters".to_owned(), "".to_owned()));
    r.push(("Verbosity".to_owned(), "Verbose".to_owned()));
    r.push(("IntentErrorRecovery".to_owned(), "Error".to_owned()));
    r.push(("SpeechStyle".to_owned(), "ClearSpeak".to_owned()));
    r.push(("SubjectArea".to_owned(), "General".to_owned()));
    r.push(("Chemistry".to_owned(), "SimpleSpeak".to_owned()));
    r.push(("BrailleCode".to_owned(), "Nemeth".to_owned()));
    r.push(("TTS".to_owned(), "None".to_owned()));
    r.push(("NavVerbosity".to_owned(), "Verbose".to_owned()));
    r.push(("NavMode".to_owned(), "Enhanced".to_owned()));
    r.push(("MathRate".to_owned(), "80".to_owned()));
    r.push(("CapitalLetters_Beep".to_owned(), "true".to_owned()));
    r.push(("Bookmark".to_owned(), "false".to_owned()));
    r
}

} // verus!
