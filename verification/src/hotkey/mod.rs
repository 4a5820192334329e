//! Hotkey handling: the chord machine, the key map, the loop's decisions,
//! and the checks made on what a session produced.

pub mod chord;
pub mod keymap;
pub mod session;

use vstd::prelude::*;

use vstd::string::StringExecFns;

use crate::asr::{AsrError, LanguageCode, Transcript};
use crate::lang::{Language, LanguageMatch};
use crate::text::{chars_of, is_white_space, is_whitespace};
use self::chord::Mode;

verus! {

/// The bracket nesting depth after the first `n` characters of `t`. A
/// closing bracket with nothing open is ignored.
pub open spec fn bracket_depth(t: Seq<char>, n: int) -> nat
    decreases n,
{
    if n <= 0 {
        0
    } else {
        let d = bracket_depth(t, n - 1);
        if t[n - 1] == '[' {
            d + 1
        } else if t[n - 1] == ']' {
            if d == 0 {
                0
            } else {
                (d - 1) as nat
            }
        } else {
            d
        }
    }
}

/// Whether `t[i]` is text outside every bracketed span.
pub open spec fn outside_brackets(t: Seq<char>, i: int) -> bool {
    t[i] != '[' && t[i] != ']' && bracket_depth(t, i) == 0
}

/// Every closing bracket in `t` closes an open one, and every bracket
/// opened is closed by the end.
pub open spec fn brackets_balanced(t: Seq<char>) -> bool {
    &&& forall|i: int| 0 <= i < t.len() && t[i] == ']' ==> bracket_depth(t, i) > 0
    &&& bracket_depth(t, t.len() as int) == 0
}

/// `t` holds something other than white space, its brackets balance, and
/// everything outside them is white space: it is nothing but bracketed
/// labels such as `[Music]` or `[BLANK_AUDIO]`.
pub open spec fn spec_only_bracketed_noise(t: Seq<char>) -> bool {
    &&& exists|i: int| 0 <= i < t.len() && !is_white_space(#[trigger] t[i])
    &&& forall|i: int| 0 <= i < t.len() && outside_brackets(t, i) ==> is_white_space(#[trigger] t[i])
    &&& brackets_balanced(t)
}

/// Whisper hallucinates bracketed non-speech labels (`[Music]`,
/// `[Applause]`, `[BLANK_AUDIO]`, ...) instead of returning nothing when
/// the recording is near-silent. True when `text` is made of nothing but
/// such bracketed tokens: never worth injecting into the focused app.
/// Empty or all-blank text is not flagged, and neither is text with a
/// stray closing bracket or a bracket left open.
pub fn is_only_bracketed_noise(text: &str) -> (r: bool)
    ensures
        r == spec_only_bracketed_noise(text@),
{
    let chars = chars_of(text);
    let mut depth: usize = 0;
    let mut any_text = false;
    let mut outside_blank = true;
    let mut no_stray_close = true;
    let mut i: usize = 0;
    while i < chars.len()
        invariant
            chars@ == text@,
            i <= chars.len(),
            depth == bracket_depth(chars@, i as int),
            depth <= i,
            any_text == (exists|j: int| 0 <= j < i && !is_white_space(#[trigger] chars@[j])),
            outside_blank == (forall|j: int|
                0 <= j < i && outside_brackets(chars@, j) ==> is_white_space(#[trigger] chars@[j])),
            no_stray_close == (forall|j: int|
                0 <= j < i && #[trigger] chars@[j] == ']' ==> bracket_depth(chars@, j) > 0),
        decreases chars.len() - i,
    {
        let c = chars[i];
        let blank = is_whitespace(c);
        if !blank {
            any_text = true;
        }
        if c == '[' {
            depth = depth + 1;
        } else if c == ']' {
            if depth > 0 {
                depth = depth - 1;
            } else {
                no_stray_close = false;
            }
        } else if depth == 0 && !blank {
            outside_blank = false;
        }
        i = i + 1;
    }
    any_text && outside_blank && no_stray_close && depth == 0
}

/// How a language code prints when the registry has no entry for it.
pub open spec fn spec_code_name(code: LanguageCode) -> Seq<char> {
    match code {
        LanguageCode::En => "En"@,
        LanguageCode::Hi => "Hi"@,
        LanguageCode::Bn => "Bn"@,
    }
}

/// Whether `languages[i]` is the first entry for `code`.
pub open spec fn is_first_entry(languages: Seq<Language>, code: LanguageCode, i: int) -> bool {
    &&& 0 <= i < languages.len()
    &&& languages[i].code == code
    &&& forall|j: int| 0 <= j < i ==> languages[j].code != code
}

/// The native-script name of `code` (e.g. `বাংলা`) from the first registry
/// entry for it, or the code's own name if the registry has none.
pub open spec fn spec_native_label(languages: Seq<Language>, code: LanguageCode) -> Seq<char> {
    if exists|i: int| is_first_entry(languages, code, i) {
        languages[choose|i: int| is_first_entry(languages, code, i)].native@
    } else {
        spec_code_name(code)
    }
}

/// The active language's native-script name for the pill label.
pub fn active_language_native(languages: &Vec<Language>, code: LanguageCode) -> (r: String)
    ensures
        r@ == spec_native_label(languages@, code),
{
    let mut i: usize = 0;
    while i < languages.len()
        invariant
            i <= languages.len(),
            forall|j: int| 0 <= j < i ==> languages@[j].code != code,
        decreases languages.len() - i,
    {
        if languages[i].code == code {
            assert(is_first_entry(languages@, code, i as int));
            let ghost k = choose|k: int| is_first_entry(languages@, code, k);
            assert(k == i) by {
                if k < i {
                    assert(languages@[k].code != code);
                } else if k > i {
                    assert(languages@[i as int].code != code);
                }
            }
            return languages[i].native.clone();
        }
        i = i + 1;
    }
    match code {
        LanguageCode::En => String::from_str("En"),
        LanguageCode::Hi => String::from_str("Hi"),
        LanguageCode::Bn => String::from_str("Bn"),
    }
}

/// The pill's label while recording: the active language's native name
/// when dictating, a prompt when waiting for a language name.
pub open spec fn spec_pill_label(mode: Mode, languages: Seq<Language>, active: LanguageCode) -> Seq<
    char,
> {
    match mode {
        Mode::Dictate => spec_native_label(languages, active),
        Mode::Command => "Say a language\u{2026}"@,
    }
}

pub fn pill_label(mode: Mode, languages: &Vec<Language>, active: LanguageCode) -> (r: String)
    ensures
        r@ == spec_pill_label(mode, languages@, active),
{
    match mode {
        Mode::Dictate => active_language_native(languages, active),
        Mode::Command => String::from_str("Say a language\u{2026}"),
    }
}

/// What the pill does once a Command-mode utterance has been matched.
#[derive(Debug, Clone)]
pub enum CommandPill {
    /// Flash "✓" and this language's native name, then hide.
    ShowMatched(String),
    /// Nothing was switched: hide.
    Hide,
}

/// The result of a Command-mode session: the active language afterwards
/// and what the pill shows. Only a clear match switches the language; an
/// ambiguous result or no match keeps the current one.
pub fn command_result(active: LanguageCode, heard: LanguageMatch, languages: &Vec<Language>) -> (r: (
    LanguageCode,
    CommandPill,
))
    ensures
        match heard {
            LanguageMatch::Matched(c) => r.0 == c && (r.1 matches CommandPill::ShowMatched(label)
                && label@ == spec_native_label(languages@, c)),
            _ => r.0 == active && r.1 is Hide,
        },
{
    match heard {
        LanguageMatch::Matched(code) => (code, CommandPill::ShowMatched(active_language_native(languages, code))),
        _ => (active, CommandPill::Hide),
    }
}

/// What a dictation session types, given its transcription: the
/// transcript's text, exactly as recognized, when transcription succeeded
/// and the text is not bracketed non-speech noise; nothing otherwise.
pub fn text_to_type(transcription: Result<Transcript, AsrError>) -> (r: Option<String>)
    ensures
        match transcription {
            Ok(t) => if spec_only_bracketed_noise(t.text@) {
                r is None
            } else {
                r matches Some(s) && s@ == t.text@
            },
            Err(_) => r is None,
        },
{
    match transcription {
        Ok(t) => {
            if is_only_bracketed_noise(t.text.as_str()) {
                None
            } else {
                Some(t.text)
            }
        },
        Err(_) => None,
    }
}

} // verus!
