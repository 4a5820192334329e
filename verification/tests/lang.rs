use speechx::hotkey::{command_result, CommandPill};
use speechx::lang::LanguageMatch;
use speechx::asr::LanguageCode;
use speechx::hotkey::chord::Mode;
use speechx::hotkey::{active_language_native, pill_label};
use speechx::lang::{command_words, is_filler, language_code_from_str, languages_from_raw, utterance_words, Language, RawLanguage};

fn raw(code: &str, display: &str, native: &str, aliases: &[&str]) -> RawLanguage {
    RawLanguage {
        code: code.to_string(),
        display: display.to_string(),
        native: native.to_string(),
        aliases: aliases.iter().map(|a| a.to_string()).collect(),
    }
}

fn registry() -> Vec<Language> {
    languages_from_raw(vec![
        raw("en", "English", "English", &["english", "inglish"]),
        raw("hi", "Hindi", "हिंदी", &["hindi", "हिंदी"]),
        raw("bn", "Bengali", "বাংলা", &["bengali", "bangla"]),
    ])
}

#[test]
fn registry_codes_map_to_languages() {
    assert_eq!(language_code_from_str("en"), Some(LanguageCode::En));
    assert_eq!(language_code_from_str("hi"), Some(LanguageCode::Hi));
    assert_eq!(language_code_from_str("bn"), Some(LanguageCode::Bn));
    assert_eq!(language_code_from_str("ta"), None);
    assert_eq!(language_code_from_str("EN"), None);
}

#[test]
fn unknown_registry_entries_are_skipped() {
    let langs = languages_from_raw(vec![
        raw("ta", "Tamil", "தமிழ்", &["tamil"]),
        raw("bn", "Bengali", "বাংলা", &["bengali"]),
    ]);
    assert_eq!(langs.len(), 1);
    assert_eq!(langs[0].code, LanguageCode::Bn);
    assert_eq!(langs[0].native, "বাংলা");
    assert_eq!(langs[0].aliases, vec!["bengali".to_string()]);
}

#[test]
fn registry_keeps_file_order() {
    let langs = registry();
    let codes: Vec<LanguageCode> = langs.iter().map(|l| l.code).collect();
    assert_eq!(codes, vec![LanguageCode::En, LanguageCode::Hi, LanguageCode::Bn]);
    assert_eq!(langs[1].display, "Hindi");
}

#[test]
fn native_label_comes_from_the_registry() {
    let langs = registry();
    assert_eq!(active_language_native(&langs, LanguageCode::Bn), "বাংলা");
    assert_eq!(active_language_native(&langs, LanguageCode::Hi), "हिंदी");
}

#[test]
fn native_label_falls_back_to_the_code_name() {
    let langs = languages_from_raw(vec![raw("en", "English", "English", &["english"])]);
    assert_eq!(active_language_native(&langs, LanguageCode::Bn), "Bn");
    assert_eq!(active_language_native(&Vec::new(), LanguageCode::Hi), "Hi");
}

#[test]
fn pill_label_by_mode() {
    let langs = registry();
    assert_eq!(pill_label(Mode::Dictate, &langs, LanguageCode::Bn), "বাংলা");
    assert_eq!(pill_label(Mode::Command, &langs, LanguageCode::Bn), "Say a language\u{2026}");
}

#[test]
fn utterance_words_lowercase_and_drop_fillers() {
    assert_eq!(utterance_words("Switch To BENGALI"), vec!["bengali".to_string()]);
    assert_eq!(
        utterance_words("please switch the language to bengali"),
        vec!["the".to_string(), "bengali".to_string()]
    );
}

#[test]
fn utterance_words_strip_ascii_punctuation() {
    assert_eq!(utterance_words("Hindi!"), vec!["hindi".to_string()]);
    assert_eq!(utterance_words("\"bangla,\" ... ok?"), vec!["bangla".to_string(), "ok".to_string()]);
}

#[test]
fn utterance_words_of_blank_is_empty() {
    assert!(utterance_words("   ").is_empty());
    assert!(utterance_words("").is_empty());
    assert!(utterance_words("switch to ... please").is_empty());
}

#[test]
fn utterance_words_keep_native_script() {
    assert_eq!(utterance_words("  বাংলা\tকরো "), vec!["বাংলা".to_string(), "করো".to_string()]);
}

#[test]
fn filler_words() {
    for w in ["switch", "to", "change", "set", "please", "language", "mode", "karo", "kar", "do", "koro", "cholo"] {
        assert!(is_filler(&w.to_string()));
    }
    assert!(!is_filler(&"hindi".to_string()));
    assert!(!is_filler(&"Switch".to_string()));
}

#[test]
fn whisper_code_reads_back_as_the_same_language() {
    for c in [LanguageCode::En, LanguageCode::Hi, LanguageCode::Bn] {
        assert_eq!(language_code_from_str(c.whisper_code()), Some(c));
    }
}

#[test]
fn command_result_switches_only_on_a_clear_match() {
    let langs = registry();
    let (next, pill) = command_result(LanguageCode::En, LanguageMatch::Matched(LanguageCode::Bn), &langs);
    assert_eq!(next, LanguageCode::Bn);
    assert!(matches!(pill, CommandPill::ShowMatched(ref n) if n == "বাংলা"));
    let (next, pill) = command_result(
        LanguageCode::En,
        LanguageMatch::Ambiguous(LanguageCode::Hi, LanguageCode::Bn),
        &langs,
    );
    assert_eq!(next, LanguageCode::En);
    assert!(matches!(pill, CommandPill::Hide));
    let (next, pill) = command_result(LanguageCode::Hi, LanguageMatch::NoMatch, &langs);
    assert_eq!(next, LanguageCode::Hi);
    assert!(matches!(pill, CommandPill::Hide));
}

#[test]
fn command_words_take_lowercased_text_as_is() {
    assert_eq!(command_words("hindi"), vec!["hindi".to_string()]);
    assert_eq!(command_words("Switch To Hindi"), vec!["Switch".to_string(), "To".to_string(), "Hindi".to_string()]);
    assert_eq!(command_words("switch to, hindi!"), vec!["hindi".to_string()]);
}
