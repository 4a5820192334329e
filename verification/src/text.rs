//! Character-level text helpers shared by the transcript, language and
//! injection logic: Unicode white space (what `str::trim` and
//! `str::split_whitespace` strip and split on), ASCII punctuation, and
//! trimming.

use vstd::prelude::*;
use vstd::string::{StrSliceExecFns, StringExecFns};

verus! {

broadcast use vstd::string::group_string_axioms;

/// The Unicode `White_Space` property, which `char::is_whitespace`,
/// `str::trim` and `str::split_whitespace` go by.
pub open spec fn is_white_space(c: char) -> bool {
    let u = c as u32;
    ||| 0x09 <= u <= 0x0D
    ||| u == 0x20
    ||| u == 0x85
    ||| u == 0xA0
    ||| u == 0x1680
    ||| 0x2000 <= u <= 0x200A
    ||| u == 0x2028
    ||| u == 0x2029
    ||| u == 0x202F
    ||| u == 0x205F
    ||| u == 0x3000
}

pub fn is_whitespace(c: char) -> (b: bool)
    ensures
        b == is_white_space(c),
{
    let u = c as u32;
    (0x09 <= u && u <= 0x0D) || u == 0x20 || u == 0x85 || u == 0xA0 || u == 0x1680 || (0x2000 <= u
        && u <= 0x200A) || u == 0x2028 || u == 0x2029 || u == 0x202F || u == 0x205F || u == 0x3000
}

/// The characters of `s`, in order.
pub fn chars_of(s: &str) -> (v: Vec<char>)
    ensures
        v@ == s@,
{
    let mut v: Vec<char> = Vec::new();
    for c in it: s.chars()
        invariant
            v@ == it.seq().take(it.index()),
    {
        v.push(c);
    }
    v
}

} // verus!

verus! {

/// ASCII punctuation, as `char::is_ascii_punctuation` defines it.
pub open spec fn is_ascii_punct(c: char) -> bool {
    let u = c as u32;
    ||| 0x21 <= u <= 0x2F
    ||| 0x3A <= u <= 0x40
    ||| 0x5B <= u <= 0x60
    ||| 0x7B <= u <= 0x7E
}

pub fn is_ascii_punctuation(c: char) -> (b: bool)
    ensures
        b == is_ascii_punct(c),
{
    let u = c as u32;
    (0x21 <= u && u <= 0x2F) || (0x3A <= u && u <= 0x40) || (0x5B <= u && u <= 0x60) || (0x7B
        <= u && u <= 0x7E)
}

/// The classes of characters that text is trimmed of.
#[derive(Debug, Clone, Copy, PartialEq, Eq, Structural)]
pub enum CharClass {
    WhiteSpace,
    AsciiPunctuation,
}

pub open spec fn in_class(c: char, class: CharClass) -> bool {
    match class {
        CharClass::WhiteSpace => is_white_space(c),
        CharClass::AsciiPunctuation => is_ascii_punct(c),
    }
}

pub fn char_in_class(c: char, class: CharClass) -> (b: bool)
    ensures
        b == in_class(c, class),
{
    match class {
        CharClass::WhiteSpace => is_whitespace(c),
        CharClass::AsciiPunctuation => is_ascii_punctuation(c),
    }
}

/// `s` without its leading characters of `class`.
pub open spec fn trim_start_class(s: Seq<char>, class: CharClass) -> Seq<char>
    decreases s.len(),
{
    if s.len() > 0 && in_class(s[0], class) {
        trim_start_class(s.drop_first(), class)
    } else {
        s
    }
}

/// `s` without its trailing characters of `class`.
pub open spec fn trim_end_class(s: Seq<char>, class: CharClass) -> Seq<char>
    decreases s.len(),
{
    if s.len() > 0 && in_class(s.last(), class) {
        trim_end_class(s.drop_last(), class)
    } else {
        s
    }
}

/// `s` without its leading and trailing characters of `class`: what
/// `str::trim` computes for white space, and `str::trim_matches` for
/// ASCII punctuation.
pub open spec fn trim_class(s: Seq<char>, class: CharClass) -> Seq<char> {
    trim_end_class(trim_start_class(s, class), class)
}

/// `s` without leading and trailing white space, as `str::trim` gives it.
pub open spec fn trim_white(s: Seq<char>) -> Seq<char> {
    trim_class(s, CharClass::WhiteSpace)
}

/// The bounds, within `lo..hi`, of `chars[lo..hi]` trimmed of `class`.
pub fn trim_bounds(chars: &Vec<char>, lo: usize, hi: usize, class: CharClass) -> (r: (usize, usize))
    requires
        lo <= hi <= chars.len(),
    ensures
        lo <= r.0 <= r.1 <= hi,
        chars@.subrange(r.0 as int, r.1 as int) == trim_class(
            chars@.subrange(lo as int, hi as int),
            class,
        ),
{
    let mut a = lo;
    while a < hi && char_in_class(chars[a], class)
        invariant
            lo <= a <= hi <= chars.len(),
            trim_start_class(chars@.subrange(lo as int, hi as int), class) == trim_start_class(
                chars@.subrange(a as int, hi as int),
                class,
            ),
        decreases hi - a,
    {
        assert(chars@.subrange(a as int, hi as int).drop_first() =~= chars@.subrange(
            a + 1,
            hi as int,
        ));
        a = a + 1;
    }
    assert(trim_start_class(chars@.subrange(a as int, hi as int), class) == chars@.subrange(
        a as int,
        hi as int,
    ));
    let mut b = hi;
    while b > a && char_in_class(chars[b - 1], class)
        invariant
            lo <= a <= b <= hi <= chars.len(),
            trim_class(chars@.subrange(lo as int, hi as int), class) == trim_end_class(
                chars@.subrange(a as int, b as int),
                class,
            ),
        decreases b - a,
    {
        assert(chars@.subrange(a as int, b as int).drop_last() =~= chars@.subrange(
            a as int,
            b - 1,
        ));
        b = b - 1;
    }
    (a, b)
}

/// `s` trimmed of leading and trailing white space.
pub fn trim_whitespace(s: &str) -> (r: String)
    ensures
        r@ == trim_white(s@),
{
    let chars = chars_of(s);
    let (a, b) = trim_bounds(&chars, 0, chars.len(), CharClass::WhiteSpace);
    assert(chars@.subrange(0, chars@.len() as int) =~= s@);
    String::from_str(s.substring_char(a, b))
}

/// The lower-case form of `s`, as `str::to_lowercase` computes it by the
/// Unicode case mapping.
pub uninterp spec fn lowercase_of(s: Seq<char>) -> Seq<char>;

/// Calls `str::to_lowercase`; the result is named `lowercase_of` of the
/// argument's characters and nothing more is claimed of it.
#[verifier::external_body]
pub(crate) fn to_lowercase(s: &str) -> (r: String)
    ensures
        r@ == lowercase_of(s@),
{
    s.to_lowercase()
}

/// Trimming the start leaves a suffix of `s` that does not start with a
/// character of the class.
pub proof fn lemma_trim_start_is_suffix(s: Seq<char>, class: CharClass)
    ensures
        trim_start_class(s, class).len() <= s.len(),
        trim_start_class(s, class) =~= s.subrange(
            s.len() - trim_start_class(s, class).len(),
            s.len() as int,
        ),
        trim_start_class(s, class).len() > 0 ==> !in_class(trim_start_class(s, class)[0], class),
    decreases s.len(),
{
    if s.len() > 0 && in_class(s[0], class) {
        lemma_trim_start_is_suffix(s.drop_first(), class);
    }
}

/// Trimming the end leaves a prefix of `s` that does not end with a
/// character of the class.
pub proof fn lemma_trim_end_is_prefix(s: Seq<char>, class: CharClass)
    ensures
        trim_end_class(s, class).len() <= s.len(),
        trim_end_class(s, class) =~= s.subrange(0, trim_end_class(s, class).len() as int),
        trim_end_class(s, class).len() > 0 ==> !in_class(trim_end_class(s, class).last(), class),
    decreases s.len(),
{
    if s.len() > 0 && in_class(s.last(), class) {
        lemma_trim_end_is_prefix(s.drop_last(), class);
    }
}

/// Trimming leaves a contiguous part of `s` that neither starts nor ends
/// with a character of the class.
pub proof fn lemma_trim_is_infix(s: Seq<char>, class: CharClass)
    ensures
        exists|a: int, b: int|
            0 <= a <= b <= s.len() && #[trigger] trim_class(s, class) =~= s.subrange(a, b),
        trim_class(s, class).len() > 0 ==> !in_class(trim_class(s, class)[0], class) && !in_class(
            trim_class(s, class).last(),
            class,
        ),
{
    let t = trim_start_class(s, class);
    lemma_trim_start_is_suffix(s, class);
    lemma_trim_end_is_prefix(t, class);
    let a = s.len() - t.len();
    let b = a + trim_end_class(t, class).len();
    assert(trim_class(s, class) =~= s.subrange(a, b));
    if trim_class(s, class).len() > 0 {
        assert(trim_class(s, class)[0] == t[0]);
    }
}

} // verus!
