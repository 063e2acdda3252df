use stt_client::form::{char_is_white_space, form_fields, str_is_blank, FormField};

fn pairs(fields: &[FormField]) -> Vec<(String, String)> {
    fields.iter().map(|f| (f.name.clone(), f.value.clone())).collect()
}

fn pair(name: &str, value: &str) -> (String, String) {
    (name.to_string(), value.to_string())
}

#[test]
fn translation_never_sends_language() {
    let fields = form_fields("whisper-1", Some("de".to_string()), None, true);
    assert!(fields.iter().all(|f| f.name != "language"));
    assert_eq!(pairs(&fields), vec![pair("model", "whisper-1"), pair("response_format", "json")]);
}

#[test]
fn transcription_sends_language_and_prompt_in_order() {
    let fields =
        form_fields("whisper-1", Some("de".to_string()), Some("Names: Ada".to_string()), false);
    assert_eq!(
        pairs(&fields),
        vec![
            pair("model", "whisper-1"),
            pair("language", "de"),
            pair("prompt", "Names: Ada"),
            pair("response_format", "json"),
        ]
    );
}

#[test]
fn translation_keeps_prompt() {
    let fields = form_fields("m", Some("fr".to_string()), Some("hint".to_string()), true);
    assert_eq!(
        pairs(&fields),
        vec![pair("model", "m"), pair("prompt", "hint"), pair("response_format", "json")]
    );
}

#[test]
fn blank_hints_are_dropped() {
    let fields = form_fields("m", Some("  \t".to_string()), Some("\n".to_string()), false);
    assert_eq!(pairs(&fields), vec![pair("model", "m"), pair("response_format", "json")]);
    let fields = form_fields("m", Some(String::new()), Some(String::new()), false);
    assert_eq!(pairs(&fields), vec![pair("model", "m"), pair("response_format", "json")]);
}

#[test]
fn missing_hints_send_two_fields() {
    let fields = form_fields("nova-2", None, None, false);
    assert_eq!(pairs(&fields), vec![pair("model", "nova-2"), pair("response_format", "json")]);
}

#[test]
fn hints_are_sent_untrimmed() {
    let fields = form_fields("m", Some(" en ".to_string()), Some(" p ".to_string()), false);
    assert_eq!(
        pairs(&fields),
        vec![
            pair("model", "m"),
            pair("language", " en "),
            pair("prompt", " p "),
            pair("response_format", "json"),
        ]
    );
}

#[test]
fn empty_model_is_still_sent() {
    let fields = form_fields("", None, None, true);
    assert_eq!(pairs(&fields), vec![pair("model", ""), pair("response_format", "json")]);
}

#[test]
fn white_space_agrees_with_std() {
    let mut code: u32 = 0;
    while code <= 0x3100 {
        if let Some(c) = char::from_u32(code) {
            assert_eq!(char_is_white_space(c), c.is_whitespace(), "U+{:04X}", code);
        }
        code += 1;
    }
    assert!(!char_is_white_space('\u{FEFF}'));
    assert!(!char_is_white_space('\u{200B}'));
}

#[test]
fn blank_agrees_with_trim() {
    for s in ["", " ", "\t\n\r", "\u{3000}\u{2003}", " a ", "a", "\u{200B}", " \u{85}\u{A0} "] {
        assert_eq!(str_is_blank(s), s.trim().is_empty(), "{:?}", s);
    }
}
