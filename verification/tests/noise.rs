use speechx::asr::{AsrError, LanguageCode, Transcript};
use speechx::hotkey::text_to_type;
use speechx::hotkey::is_only_bracketed_noise;

#[test]
fn detects_bracketed_only_hallucinations() {
    assert!(is_only_bracketed_noise("[Music]"));
    assert!(is_only_bracketed_noise("[Music][Music][Band Warms Up][Music][Bell]"));
    assert!(is_only_bracketed_noise("  [Applause]  "));
}

#[test]
fn keeps_real_speech_even_with_brackets_in_it() {
    assert!(!is_only_bracketed_noise("turn on the lights [laughs]"));
    assert!(!is_only_bracketed_noise("hello world"));
}

#[test]
fn empty_text_is_not_flagged_as_noise() {
    assert!(!is_only_bracketed_noise(""));
    assert!(!is_only_bracketed_noise("   "));
}

#[test]
fn nested_brackets_are_noise() {
    assert!(is_only_bracketed_noise("[a [b] c]"));
}

#[test]
fn stray_closing_bracket_is_not_noise() {
    assert!(!is_only_bracketed_noise("] hello"));
    assert!(!is_only_bracketed_noise("] [x]"));
    assert!(!is_only_bracketed_noise("]"));
    assert!(!is_only_bracketed_noise("[Music]]"));
}

#[test]
fn unclosed_bracket_is_not_noise() {
    assert!(!is_only_bracketed_noise("[BLANK_AUDIO"));
    assert!(!is_only_bracketed_noise("[Music"));
    assert!(!is_only_bracketed_noise("[[Music]"));
}

#[test]
fn unicode_whitespace_outside_brackets_is_blank() {
    assert!(is_only_bracketed_noise("\u{3000}[Music]\u{a0}"));
    assert!(!is_only_bracketed_noise("[Music] বাংলা"));
}

fn transcript(text: &str) -> Transcript {
    Transcript { text: text.to_string(), language: LanguageCode::En, duration_ms: 5 }
}

#[test]
fn speech_is_typed_exactly_once_as_recognized() {
    assert_eq!(text_to_type(Ok(transcript("hello [laughs] world"))), Some("hello [laughs] world".to_string()));
    assert_eq!(text_to_type(Ok(transcript("বাংলা"))), Some("বাংলা".to_string()));
}

#[test]
fn noise_and_failures_type_nothing() {
    assert_eq!(text_to_type(Ok(transcript("[Music]"))), None);
    assert_eq!(text_to_type(Err(AsrError::Empty)), None);
    assert_eq!(text_to_type(Err(AsrError::ModelMissing("m".to_string()))), None);
}
