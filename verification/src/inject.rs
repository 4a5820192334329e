//! Text injection's plain logic: which strategy types a transcript on
//! Windows, the UTF-16 encoding it needs, and the synthetic keyboard
//! events it sends. Posting the events, the clipboard and UI Automation
//! are the application's part.

use vstd::prelude::*;
use vstd::string::{StrSliceExecFns, StringExecFns};

use crate::text::chars_of;

verus! {

broadcast use vstd::string::group_string_axioms;

#[derive(Debug, Clone)]
pub enum InjectError {
    Connect(String),
    Send(String),
}

pub open spec fn spec_inject_error_message(e: InjectError) -> Seq<char> {
    match e {
        InjectError::Connect(m) => "failed to connect to the input system: "@ + m@,
        InjectError::Send(m) => "failed to send text: "@ + m@,
    }
}

impl InjectError {
    /// The error's message for logs and display.
    pub fn message(&self) -> (r: String)
        ensures
            r@ == spec_inject_error_message(*self),
    {
        match self {
            InjectError::Connect(m) => String::from_str(
                "failed to connect to the input system: ",
            ).concat(m.as_str()),
            InjectError::Send(m) => String::from_str("failed to send text: ").concat(m.as_str()),
        }
    }
}

/// The UTF-16 code units of `c`: one unit inside the Basic Multilingual
/// Plane, a surrogate pair outside it.
pub open spec fn utf16_units(c: char) -> Seq<u16> {
    let u = c as u32;
    if u < 0x10000 {
        seq![u as u16]
    } else {
        let v = (u - 0x10000) as u32;
        seq![(0xD800 + v / 0x400) as u16, (0xDC00 + v % 0x400) as u16]
    }
}

/// The UTF-16 encoding of `s`.
pub open spec fn utf16_of(s: Seq<char>) -> Seq<u16>
    decreases s.len(),
{
    if s.len() == 0 {
        Seq::empty()
    } else {
        utf16_of(s.drop_last()) + utf16_units(s.last())
    }
}

/// Appends the UTF-16 code units of `c` to `out`.
fn push_utf16(out: &mut Vec<u16>, c: char)
    ensures
        final(out)@ == old(out)@ + utf16_units(c),
{
    let u = c as u32;
    if u < 0x10000 {
        out.push(u as u16);
    } else {
        let v = u - 0x10000;
        assert(v < 0x100000);
        assert(v / 0x400 < 0x400);
        out.push((0xD800 + v / 0x400) as u16);
        out.push((0xDC00 + v % 0x400) as u16);
    }
    assert(final(out)@ =~= old(out)@ + utf16_units(c));
}

/// The UTF-16 encoding of `text`, as `str::encode_utf16` gives it.
pub fn encode_utf16(text: &str) -> (r: Vec<u16>)
    ensures
        r@ == utf16_of(text@),
{
    let chars = chars_of(text);
    let mut out: Vec<u16> = Vec::new();
    let mut i: usize = 0;
    while i < chars.len()
        invariant
            i <= chars.len(),
            out@ == utf16_of(chars@.take(i as int)),
        decreases chars.len() - i,
    {
        assert(chars@.take(i + 1).drop_last() =~= chars@.take(i as int));
        push_utf16(&mut out, chars[i]);
        i = i + 1;
    }
    assert(chars@.take(chars.len() as int) =~= text@);
    out
}

/// The text as the clipboard's Unicode text format holds it: UTF-16 with
/// a terminating NUL unit.
pub fn clipboard_utf16(text: &str) -> (r: Vec<u16>)
    ensures
        r@ == utf16_of(text@).push(0),
{
    let mut units = encode_utf16(text);
    units.push(0);
    units
}

/// The key-up flag of a synthetic keyboard event.
pub const KEYEVENTF_KEYUP: u32 = 0x0002;

/// The flag marking a synthetic keyboard event as carrying a UTF-16 unit
/// rather than a virtual key.
pub const KEYEVENTF_UNICODE: u32 = 0x0004;

/// The Ctrl virtual key.
pub const VK_CONTROL: u16 = 0x11;

/// The V virtual key.
pub const VK_V: u16 = 0x56;

/// One synthetic keyboard event: a virtual key, or a UTF-16 unit in the
/// scan code with the Unicode flag, and its flags.
#[derive(Debug, Clone, Copy, PartialEq, Eq, Structural)]
pub struct KeyInput {
    pub vk: u16,
    pub scan: u16,
    pub flags: u32,
}

pub open spec fn spec_unicode_input(unit: u16, key_up: bool) -> KeyInput {
    KeyInput {
        vk: 0,
        scan: unit,
        flags: if key_up {
            KEYEVENTF_UNICODE | KEYEVENTF_KEYUP
        } else {
            KEYEVENTF_UNICODE
        },
    }
}

pub open spec fn spec_vk_input(vk: u16, key_up: bool) -> KeyInput {
    KeyInput {
        vk,
        scan: 0,
        flags: if key_up {
            KEYEVENTF_KEYUP
        } else {
            0
        },
    }
}

/// The event that presses (or, with `key_up`, releases) the key typing
/// one UTF-16 unit.
pub fn make_unicode_input(unicode_unit: u16, key_up: bool) -> (r: KeyInput)
    ensures
        r == spec_unicode_input(unicode_unit, key_up),
{
    let flags = if key_up {
        KEYEVENTF_UNICODE | KEYEVENTF_KEYUP
    } else {
        KEYEVENTF_UNICODE
    };
    KeyInput { vk: 0, scan: unicode_unit, flags }
}

/// The event that presses (or, with `key_up`, releases) a virtual key.
pub fn make_vk_input(vk: u16, key_up: bool) -> (r: KeyInput)
    ensures
        r == spec_vk_input(vk, key_up),
{
    let flags = if key_up {
        KEYEVENTF_KEYUP
    } else {
        0
    };
    KeyInput { vk, scan: 0, flags }
}

/// The events that type `units`: for each unit in order, a press and then
/// a release.
pub open spec fn typed_units(units: Seq<u16>, events: Seq<KeyInput>) -> bool {
    &&& events.len() == 2 * units.len()
    &&& forall|j: int|
        0 <= j < units.len() ==> events[2 * j] == spec_unicode_input(#[trigger] units[j], false)
            && events[2 * j + 1] == spec_unicode_input(units[j], true)
}

/// The events that type `text` directly, unit by unit: a press and a
/// release per UTF-16 unit, so characters outside the Basic Multilingual
/// Plane go out as surrogate pairs.
pub fn unicode_key_inputs(text: &str) -> (r: Vec<KeyInput>)
    ensures
        typed_units(utf16_of(text@), r@),
{
    let units = encode_utf16(text);
    let mut inputs: Vec<KeyInput> = Vec::new();
    let mut i: usize = 0;
    while i < units.len()
        invariant
            i <= units.len(),
            inputs.len() == 2 * i,
            forall|j: int|
                0 <= j < i ==> inputs@[2 * j] == spec_unicode_input(#[trigger] units@[j], false)
                    && inputs@[2 * j + 1] == spec_unicode_input(units@[j], true),
        decreases units.len() - i,
    {
        inputs.push(make_unicode_input(units[i], false));
        inputs.push(make_unicode_input(units[i], true));
        i = i + 1;
    }
    inputs
}

/// Ctrl+V: Ctrl down, V down, V up, Ctrl up.
pub fn paste_key_inputs() -> (r: Vec<KeyInput>)
    ensures
        r@ == seq![
            spec_vk_input(VK_CONTROL, false),
            spec_vk_input(VK_V, false),
            spec_vk_input(VK_V, true),
            spec_vk_input(VK_CONTROL, true),
        ],
{
    let mut inputs: Vec<KeyInput> = Vec::new();
    inputs.push(make_vk_input(VK_CONTROL, false));
    inputs.push(make_vk_input(VK_V, false));
    inputs.push(make_vk_input(VK_V, true));
    inputs.push(make_vk_input(VK_CONTROL, true));
    assert(inputs@ =~= seq![
        spec_vk_input(VK_CONTROL, false),
        spec_vk_input(VK_V, false),
        spec_vk_input(VK_V, true),
        spec_vk_input(VK_CONTROL, true),
    ]);
    inputs
}

/// How a transcript is typed on Windows.
#[derive(Debug, Clone, Copy, PartialEq, Eq, Structural)]
pub enum InjectionStrategy {
    /// Nothing to type.
    Nothing,
    /// Synthetic Unicode key events, unit by unit.
    SendInput,
    /// Through the clipboard and Ctrl+V: Unicode key events for non-ASCII
    /// characters can start IME composition, which renders the text
    /// under a dark overlay until another key commits it.
    Clipboard,
}

pub open spec fn spec_injection_strategy(text: Seq<char>) -> InjectionStrategy {
    if text.len() == 0 {
        InjectionStrategy::Nothing
    } else if exists|i: int| 0 <= i < text.len() && (text[i] as u32) >= 0x80 {
        InjectionStrategy::Clipboard
    } else {
        InjectionStrategy::SendInput
    }
}

/// Picks the strategy for `text`: ASCII text is typed directly, anything
/// else goes through the clipboard.
pub fn injection_strategy(text: &str) -> (r: InjectionStrategy)
    ensures
        r == spec_injection_strategy(text@),
{
    let chars = chars_of(text);
    if chars.len() == 0 {
        return InjectionStrategy::Nothing;
    }
    let mut i: usize = 0;
    while i < chars.len()
        invariant
            chars@ == text@,
            i <= chars.len(),
            forall|j: int| 0 <= j < i ==> (chars@[j] as u32) < 0x80,
        decreases chars.len() - i,
    {
        if chars[i] as u32 >= 0x80 {
            return InjectionStrategy::Clipboard;
        }
        i = i + 1;
    }
    InjectionStrategy::SendInput
}

/// Whether `SendInput` accepted every event it was handed; fewer means
/// something, such as a secure input field, blocked the rest.
pub fn send_input_complete(accepted: u32, expected: usize) -> (r: bool)
    ensures
        r == (accepted >= expected),
{
    accepted as usize >= expected
}

/// The value a UI Automation text element is given to insert `text` at
/// the caret: its current value with the text inserted at character
/// offset `caret`.
pub fn uia_new_value(current: &str, caret: usize, text: &str) -> (r: String)
    requires
        caret <= current@.len(),
    ensures
        r@ == current@.subrange(0, caret as int) + text@ + current@.subrange(
            caret as int,
            current@.len() as int,
        ),
{
    let len = current.unicode_len();
    let before = current.substring_char(0, caret);
    let after = current.substring_char(caret, len);
    String::from_str(before).concat(text).concat(after)
}

} // verus!
