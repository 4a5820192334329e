//! The language system: the registry's entries and the turning of a
//! spoken command into the words matched against language aliases.
//!
//! Matching itself scores every remaining word against every alias of
//! every enabled language by Jaro-Winkler similarity, a floating-point
//! score; that scoring lives with the application. What it scores is
//! decided here.

use vstd::prelude::*;
use vstd::string::{StrSliceExecFns, StringExecFns};

use crate::asr::{spec_whisper_code, LanguageCode};
use crate::text::{
    chars_of, in_class, is_ascii_punct, is_white_space, is_whitespace, lemma_trim_is_infix,
    lowercase_of, to_lowercase, trim_bounds, trim_class, trim_end_class, trim_start_class,
    CharClass,
};

verus! {

broadcast use vstd::string::group_string_axioms;

/// A language the registry offers for dictation and for voice switching.
#[derive(Debug, Clone)]
pub struct Language {
    pub code: LanguageCode,
    pub display: String,
    pub native: String,
    pub aliases: Vec<String>,
}

/// A registry entry as read from the language data file, its code not
/// yet checked.
#[derive(Debug, Clone)]
pub struct RawLanguage {
    pub code: String,
    pub display: String,
    pub native: String,
    pub aliases: Vec<String>,
}

/// The language a registry code names, if SpeechX knows it.
pub open spec fn spec_language_code(code: Seq<char>) -> Option<LanguageCode> {
    if code == "en"@ {
        Some(LanguageCode::En)
    } else if code == "hi"@ {
        Some(LanguageCode::Hi)
    } else if code == "bn"@ {
        Some(LanguageCode::Bn)
    } else {
        None
    }
}

pub fn language_code_from_str(code: &str) -> (r: Option<LanguageCode>)
    ensures
        r == spec_language_code(code@),
{
    let code = String::from_str(code);
    if code == String::from_str("en") {
        Some(LanguageCode::En)
    } else if code == String::from_str("hi") {
        Some(LanguageCode::Hi)
    } else if code == String::from_str("bn") {
        Some(LanguageCode::Bn)
    } else {
        None
    }
}

/// The registry entries with a known code, in file order; entries with
/// an unknown code are skipped.
pub open spec fn known_languages(raw: Seq<RawLanguage>) -> Seq<Language>
    decreases raw.len(),
{
    if raw.len() == 0 {
        Seq::empty()
    } else {
        let prev = known_languages(raw.drop_last());
        let r = raw.last();
        match spec_language_code(r.code@) {
            Some(c) => prev.push(
                Language { code: c, display: r.display, native: r.native, aliases: r.aliases },
            ),
            None => prev,
        }
    }
}

/// Turns the registry file's entries into languages, skipping any entry
/// whose code SpeechX does not know.
pub fn languages_from_raw(raw: Vec<RawLanguage>) -> (r: Vec<Language>)
    ensures
        r@ == known_languages(raw@),
{
    let ghost orig = raw@;
    let n = raw.len();
    let mut raw = raw;
    let mut out: Vec<Language> = Vec::new();
    let mut k: usize = 0;
    while raw.len() > 0
        invariant
            k <= orig.len(),
            raw@ == orig.skip(k as int),
            k + raw@.len() == orig.len(),
            orig.len() == n,
            out@ == known_languages(orig.take(k as int)),
        decreases raw.len(),
    {
        assert(k < orig.len());
        let r = raw.remove(0);
        assert(orig.take(k + 1).drop_last() =~= orig.take(k as int));
        assert(raw@ =~= orig.skip(k + 1));
        match language_code_from_str(r.code.as_str()) {
            Some(c) => {
                out.push(
                    Language { code: c, display: r.display, native: r.native, aliases: r.aliases },
                );
            },
            None => {},
        }
        k = k + 1;
    }
    assert(orig.take(k as int) =~= orig);
    out
}

/// What the alias matcher made of a spoken command, without the
/// similarity score: a clear match, two languages too close to call, or
/// no language at all.
#[derive(Debug, Clone, Copy, PartialEq, Eq, Structural)]
pub enum LanguageMatch {
    Matched(LanguageCode),
    Ambiguous(LanguageCode, LanguageCode),
    NoMatch,
}

/// Words that frame a spoken command ("switch to ... please") and are
/// never language names.
pub open spec fn is_filler_word(w: Seq<char>) -> bool {
    ||| w == "switch"@
    ||| w == "to"@
    ||| w == "change"@
    ||| w == "set"@
    ||| w == "please"@
    ||| w == "language"@
    ||| w == "mode"@
    ||| w == "karo"@
    ||| w == "kar"@
    ||| w == "do"@
    ||| w == "koro"@
    ||| w == "cholo"@
}

pub fn is_filler(w: &String) -> (b: bool)
    ensures
        b == is_filler_word(w@),
{
    *w == String::from_str("switch") || *w == String::from_str("to") || *w == String::from_str(
        "change",
    ) || *w == String::from_str("set") || *w == String::from_str("please") || *w
        == String::from_str("language") || *w == String::from_str("mode") || *w
        == String::from_str("karo") || *w == String::from_str("kar") || *w == String::from_str(
        "do",
    ) || *w == String::from_str("koro") || *w == String::from_str("cholo")
}

/// What a white-space-delimited word contributes: the word stripped of
/// ASCII punctuation at both ends, unless that leaves nothing or a filler.
pub open spec fn kept_word(w: Seq<char>) -> Seq<Seq<char>> {
    let t = trim_class(w, CharClass::AsciiPunctuation);
    if t.len() == 0 || is_filler_word(t) {
        Seq::empty()
    } else {
        seq![t]
    }
}

/// The kept words of `s` from position `i` on, where `cur` is the part
/// of a word already read before `i`.
pub open spec fn kept_words_from(s: Seq<char>, i: int, cur: Seq<char>) -> Seq<Seq<char>>
    decreases s.len() - i,
{
    if i >= s.len() {
        kept_word(cur)
    } else if is_white_space(s[i]) {
        kept_word(cur) + kept_words_from(s, i + 1, Seq::empty())
    } else {
        kept_words_from(s, i + 1, cur.push(s[i]))
    }
}

/// The words of `s`, split on white space, each stripped of ASCII
/// punctuation at both ends, with empty words and filler words dropped.
pub open spec fn kept_words(s: Seq<char>) -> Seq<Seq<char>> {
    kept_words_from(s, 0, Seq::empty())
}

/// Appends the kept word of `text[start..end]`, if any, to `out`.
fn push_kept_word(out: &mut Vec<String>, text: &str, chars: &Vec<char>, start: usize, end: usize)
    requires
        chars@ == text@,
        start <= end <= chars.len(),
    ensures
        final(out)@.map_values(|w: String| w@) == old(out)@.map_values(|w: String| w@) + kept_word(
            text@.subrange(start as int, end as int),
        ),
{
    let ghost before = out@.map_values(|w: String| w@);
    let (a, b) = trim_bounds(chars, start, end, CharClass::AsciiPunctuation);
    if a < b {
        let word = String::from_str(text.substring_char(a, b));
        if !is_filler(&word) {
            out.push(word);
            assert(out@.map_values(|w: String| w@) =~= before + seq![text@.subrange(a as int, b as int)]);
        } else {
            assert(kept_word(text@.subrange(start as int, end as int)) =~= Seq::empty());
            assert(before + Seq::<Seq<char>>::empty() =~= before);
        }
    } else {
        assert(kept_word(text@.subrange(start as int, end as int)) =~= Seq::empty());
        assert(before + Seq::<Seq<char>>::empty() =~= before);
    }
}

/// The words of a spoken command that are matched against language
/// aliases: the utterance lower-cased, split on white space, each word
/// stripped of ASCII punctuation at both ends, with filler words
/// ("switch", "to", "please", ...) and empty words dropped. Scoring per
/// word is what makes "switch to Bengali please" work without special
/// cases for sentence forms.
pub fn utterance_words(spoken: &str) -> (r: Vec<String>)
    ensures
        r@.map_values(|w: String| w@) == kept_words(lowercase_of(spoken@)),
{
    let lowered = to_lowercase(spoken);
    command_words(lowered.as_str())
}

/// The words of already lower-cased command text: split on white space,
/// each stripped of ASCII punctuation at both ends, with filler words and
/// empty words dropped.
pub fn command_words(text: &str) -> (r: Vec<String>)
    ensures
        r@.map_values(|w: String| w@) == kept_words(text@),
{
    let chars = chars_of(text);
    let ghost s = chars@;
    let mut out: Vec<String> = Vec::new();
    let mut start: usize = 0;
    let mut i: usize = 0;
    assert(s.subrange(0, 0) =~= Seq::<char>::empty());
    assert(out@.map_values(|w: String| w@) =~= Seq::<Seq<char>>::empty());
    while i < chars.len()
        invariant
            s == chars@,
            s == text@,
            start <= i <= chars.len(),
            out@.map_values(|w: String| w@) + kept_words_from(
                s,
                i as int,
                s.subrange(start as int, i as int),
            ) == kept_words(s),
        decreases chars.len() - i,
    {
        if is_whitespace(chars[i]) {
            let ghost before = out@.map_values(|w: String| w@);
            push_kept_word(&mut out, text, &chars, start, i);
            assert(s.subrange(i + 1, i + 1) =~= Seq::<char>::empty());
            assert(before + kept_words_from(s, i as int, s.subrange(start as int, i as int))
                =~= (before + kept_word(s.subrange(start as int, i as int))) + kept_words_from(
                s,
                i + 1,
                s.subrange(i + 1, i + 1),
            ));
            i = i + 1;
            start = i;
        } else {
            assert(s.subrange(start as int, i as int).push(s[i as int]) =~= s.subrange(
                start as int,
                i + 1,
            ));
            i = i + 1;
        }
    }
    push_kept_word(&mut out, text, &chars, start, i);
    out
}

/// The code SpeechX hands Whisper for a language is the code the registry
/// file uses for it, so reading it back names the same language.
pub proof fn lemma_whisper_code_round_trips(c: LanguageCode)
    ensures
        spec_language_code(spec_whisper_code(c)) == Some(c),
{
    reveal_strlit("en");
    reveal_strlit("hi");
    reveal_strlit("bn");
    assert("hi"@[0] != "en"@[0]);
    assert("bn"@[0] != "en"@[0]);
    assert("bn"@[0] != "hi"@[0]);
}

/// A word the matcher scores: non-empty, not a filler word, free of white
/// space, and neither starting nor ending with ASCII punctuation.
pub open spec fn is_clean_word(w: Seq<char>) -> bool {
    &&& w.len() > 0
    &&& !is_filler_word(w)
    &&& forall|j: int| 0 <= j < w.len() ==> !is_white_space(#[trigger] w[j])
    &&& !is_ascii_punct(w[0])
    &&& !is_ascii_punct(w.last())
}

proof fn lemma_kept_word_is_clean(w: Seq<char>)
    requires
        forall|j: int| 0 <= j < w.len() ==> !is_white_space(#[trigger] w[j]),
    ensures
        forall|k: int| 0 <= k < kept_word(w).len() ==> is_clean_word(#[trigger] kept_word(w)[k]),
{
    let t = trim_class(w, CharClass::AsciiPunctuation);
    lemma_trim_is_infix(w, CharClass::AsciiPunctuation);
    let (a, b) = choose|a: int, b: int|
        0 <= a <= b <= w.len() && #[trigger] trim_class(w, CharClass::AsciiPunctuation)
            =~= w.subrange(a, b);
    assert forall|j: int| 0 <= j < t.len() implies !is_white_space(#[trigger] t[j]) by {
        assert(t[j] == w[a + j]);
    }
    if t.len() > 0 {
        assert(!in_class(t[0], CharClass::AsciiPunctuation));
        assert(!in_class(t.last(), CharClass::AsciiPunctuation));
    }
}

proof fn lemma_kept_words_from_are_clean(s: Seq<char>, i: int, cur: Seq<char>)
    requires
        0 <= i,
        forall|j: int| 0 <= j < cur.len() ==> !is_white_space(#[trigger] cur[j]),
    ensures
        forall|k: int|
            0 <= k < kept_words_from(s, i, cur).len() ==> is_clean_word(
                #[trigger] kept_words_from(s, i, cur)[k],
            ),
    decreases s.len() - i,
{
    lemma_kept_word_is_clean(cur);
    if i >= s.len() {
        assert(kept_words_from(s, i, cur) == kept_word(cur));
    } else if is_white_space(s[i]) {
        lemma_kept_words_from_are_clean(s, i + 1, Seq::empty());
        let head = kept_word(cur);
        let rest = kept_words_from(s, i + 1, Seq::empty());
        assert(kept_words_from(s, i, cur) == head + rest);
        assert forall|k: int| 0 <= k < (head + rest).len() implies is_clean_word(
            #[trigger] (head + rest)[k],
        ) by {
            if k < head.len() {
                assert((head + rest)[k] == head[k]);
            } else {
                assert((head + rest)[k] == rest[k - head.len()]);
            }
        }
    } else {
        let next = cur.push(s[i]);
        assert forall|j: int| 0 <= j < next.len() implies !is_white_space(#[trigger] next[j]) by {
            if j < cur.len() {
                assert(next[j] == cur[j]);
            }
        }
        lemma_kept_words_from_are_clean(s, i + 1, next);
        assert(kept_words_from(s, i, cur) == kept_words_from(s, i + 1, next));
    }
}

/// The matcher only ever scores clean words: every word of an utterance
/// is non-empty, not a filler word, free of white space, and stripped of
/// ASCII punctuation at both ends.
pub proof fn lemma_utterance_words_are_clean(spoken: Seq<char>)
    ensures
        forall|k: int|
            0 <= k < kept_words(lowercase_of(spoken)).len() ==> is_clean_word(
                #[trigger] kept_words(lowercase_of(spoken))[k],
            ),
{
    lemma_kept_words_from_are_clean(lowercase_of(spoken), 0, Seq::empty());
}

/// Reading a command that holds no white space from position `i` on
/// yields the kept word of what was read before `i` and the rest.
proof fn lemma_kept_words_of_one_word(s: Seq<char>, i: int, cur: Seq<char>)
    requires
        0 <= i <= s.len(),
        forall|j: int| i <= j < s.len() ==> !is_white_space(#[trigger] s[j]),
    ensures
        kept_words_from(s, i, cur) == kept_word(cur + s.subrange(i, s.len() as int)),
    decreases s.len() - i,
{
    if i >= s.len() {
        assert(cur + s.subrange(i, s.len() as int) =~= cur);
    } else {
        lemma_kept_words_of_one_word(s, i + 1, cur.push(s[i]));
        assert(cur.push(s[i]) + s.subrange(i + 1, s.len() as int) =~= cur + s.subrange(
            i,
            s.len() as int,
        ));
    }
}

/// The filler words are exactly switch, to, change, set, please,
/// language, mode, karo, kar, do, koro and cholo. A command that is a
/// single word, free of white space and with no ASCII punctuation at
/// either end, keeps nothing if it is one of them and is kept whole
/// otherwise: a language name such as "english" or "bengali" always
/// reaches the matcher.
pub proof fn lemma_only_the_command_frame_is_dropped(w: Seq<char>)
    requires
        w.len() > 0,
        forall|j: int| 0 <= j < w.len() ==> !is_white_space(#[trigger] w[j]),
        !is_ascii_punct(w[0]),
        !is_ascii_punct(w.last()),
    ensures
        kept_words(w) == if set![
            "switch"@,
            "to"@,
            "change"@,
            "set"@,
            "please"@,
            "language"@,
            "mode"@,
            "karo"@,
            "kar"@,
            "do"@,
            "koro"@,
            "cholo"@,
        ].contains(w) {
            Seq::<Seq<char>>::empty()
        } else {
            seq![w]
        },
{
    lemma_kept_words_of_one_word(w, 0, Seq::empty());
    assert(Seq::<char>::empty() + w.subrange(0, w.len() as int) =~= w);
    assert(trim_start_class(w, CharClass::AsciiPunctuation) == w);
    assert(trim_end_class(w, CharClass::AsciiPunctuation) == w);
    assert(trim_class(w, CharClass::AsciiPunctuation) == w);
}

proof fn lemma_kept_words_of_tail(a: Seq<char>, b: Seq<char>, j: int, cur: Seq<char>)
    requires
        0 <= j <= b.len(),
    ensures
        kept_words_from(a + b, a.len() + j, cur) == kept_words_from(b, j, cur),
    decreases b.len() - j,
{
    let t = a + b;
    if j < b.len() {
        assert(t[a.len() + j] == b[j]);
        lemma_kept_words_of_tail(a, b, j + 1, Seq::empty());
        lemma_kept_words_of_tail(a, b, j + 1, cur.push(b[j]));
    }
}

proof fn lemma_kept_words_of_head(a: Seq<char>, c: char, b: Seq<char>, i: int, cur: Seq<char>)
    requires
        0 <= i <= a.len(),
        is_white_space(c),
    ensures
        kept_words_from(a + seq![c] + b, i, cur) == kept_words_from(a, i, cur) + kept_words(b),
    decreases a.len() - i,
{
    let t = a + seq![c] + b;
    if i == a.len() {
        assert(t[i] == c);
        lemma_kept_words_of_tail(a + seq![c], b, 0, Seq::empty());
    } else {
        assert(t[i] == a[i]);
        if is_white_space(a[i]) {
            lemma_kept_words_of_head(a, c, b, i + 1, Seq::empty());
            assert(kept_word(cur) + (kept_words_from(a, i + 1, Seq::empty()) + kept_words(b))
                =~= (kept_word(cur) + kept_words_from(a, i + 1, Seq::empty())) + kept_words(b));
        } else {
            lemma_kept_words_of_head(a, c, b, i + 1, cur.push(a[i]));
        }
    }
}

/// Words are read one by one: the kept words of two pieces of text
/// joined by a white-space character are those of the first followed by
/// those of the second.
pub proof fn lemma_kept_words_split_on_white_space(a: Seq<char>, c: char, b: Seq<char>)
    requires
        is_white_space(c),
    ensures
        kept_words(a + seq![c] + b) == kept_words(a) + kept_words(b),
{
    lemma_kept_words_of_head(a, c, b, 0, Seq::empty());
}

/// "switch to english" leaves the single word "english" for the matcher.
pub proof fn lemma_switch_to_english_keeps_the_language()
    ensures
        kept_words("switch to english"@) == seq!["english"@],
{
    reveal_strlit("switch to english");
    reveal_strlit("switch");
    reveal_strlit("to");
    reveal_strlit("english");
    reveal_strlit("change");
    reveal_strlit("set");
    reveal_strlit("please");
    reveal_strlit("language");
    reveal_strlit("mode");
    reveal_strlit("karo");
    reveal_strlit("kar");
    reveal_strlit("do");
    reveal_strlit("koro");
    reveal_strlit("cholo");
    let sp = seq![' '];
    assert("switch to english"@ =~= "switch"@ + sp + ("to"@ + sp + "english"@));
    lemma_kept_words_split_on_white_space("switch"@, ' ', "to"@ + sp + "english"@);
    lemma_kept_words_split_on_white_space("to"@, ' ', "english"@);
    lemma_only_the_command_frame_is_dropped("switch"@);
    lemma_only_the_command_frame_is_dropped("to"@);
    lemma_only_the_command_frame_is_dropped("english"@);
    assert("english"@ != "switch"@);
    assert("english"@ != "to"@);
    assert(Seq::<Seq<char>>::empty() + (Seq::<Seq<char>>::empty() + seq!["english"@]) =~= seq![
        "english"@,
    ]);
}

} // verus!
