//! Semantic hotkeys, decoupled from the listener's physical key codes so
//! that the chord logic never sees which physical key plays which role.
//! The role-to-key mapping differs per platform.

use vstd::prelude::*;

verus! {

/// The roles SpeechX reacts to. Names describe the role a key plays
/// (dictate trigger / command modifier / cancel), not a physical key.
#[derive(Debug, Clone, Copy, PartialEq, Eq, Hash, Structural)]
pub enum HotKey {
    /// Dictate trigger: Right Command on macOS, Right Alt on Windows.
    RightCommand,
    /// Held alongside the trigger to enter Command mode: Right Option on
    /// macOS, Right Ctrl on Windows.
    RightOption,
    Escape,
}

#[derive(Debug, Clone, Copy, PartialEq, Eq, Structural)]
pub enum Platform {
    MacOs,
    Windows,
}

/// The physical keys the global listener can report that matter to the
/// mapping, named as the listener names them; every other key is `Other`.
/// On macOS the listener reports Right Command as `MetaRight`, Left
/// Command as `MetaLeft`, Right Option as `AltGr` and Left Option as
/// `Alt`; on Windows right Alt is `AltGr` and left Alt is `Alt`.
#[derive(Debug, Clone, Copy, PartialEq, Eq, Structural)]
pub enum PhysicalKey {
    MetaRight,
    MetaLeft,
    AltGr,
    Alt,
    ControlRight,
    ControlLeft,
    Escape,
    Other,
}

/// The role `key` plays on `platform`, if any.
pub open spec fn hotkey_for(key: PhysicalKey, platform: Platform) -> Option<HotKey> {
    match platform {
        Platform::MacOs => match key {
            PhysicalKey::MetaRight => Some(HotKey::RightCommand),
            PhysicalKey::AltGr => Some(HotKey::RightOption),
            PhysicalKey::Escape => Some(HotKey::Escape),
            _ => None,
        },
        Platform::Windows => match key {
            PhysicalKey::AltGr => Some(HotKey::RightCommand),
            PhysicalKey::ControlRight => Some(HotKey::RightOption),
            PhysicalKey::Escape => Some(HotKey::Escape),
            _ => None,
        },
    }
}

impl HotKey {
    /// Maps a key reported by the global listener to the role it plays.
    /// Left-side modifiers are deliberately never bound: they collide
    /// with every standard shortcut.
    pub fn from_rdev(key: PhysicalKey, platform: Platform) -> (r: Option<HotKey>)
        ensures
            r == hotkey_for(key, platform),
    {
        match platform {
            Platform::MacOs => match key {
                PhysicalKey::MetaRight => Some(HotKey::RightCommand),
                PhysicalKey::AltGr => Some(HotKey::RightOption),
                PhysicalKey::Escape => Some(HotKey::Escape),
                _ => None,
            },
            Platform::Windows => match key {
                PhysicalKey::AltGr => Some(HotKey::RightCommand),
                PhysicalKey::ControlRight => Some(HotKey::RightOption),
                PhysicalKey::Escape => Some(HotKey::Escape),
                _ => None,
            },
        }
    }
}

/// Left-side modifiers never play a role, on either platform.
pub proof fn lemma_left_modifiers_are_never_bound(platform: Platform)
    ensures
        hotkey_for(PhysicalKey::MetaLeft, platform) is None,
        hotkey_for(PhysicalKey::Alt, platform) is None,
        hotkey_for(PhysicalKey::ControlLeft, platform) is None,
        hotkey_for(PhysicalKey::Other, platform) is None,
{
}

/// On each platform every role is played by exactly one physical key.
pub proof fn lemma_each_role_has_exactly_one_key(platform: Platform, role: HotKey)
    ensures
        exists|k: PhysicalKey| hotkey_for(k, platform) == Some(role),
        forall|a: PhysicalKey, b: PhysicalKey|
            hotkey_for(a, platform) == Some(role) && hotkey_for(b, platform) == Some(role)
                ==> a == b,
{
    let k = match (platform, role) {
        (Platform::MacOs, HotKey::RightCommand) => PhysicalKey::MetaRight,
        (Platform::MacOs, HotKey::RightOption) => PhysicalKey::AltGr,
        (Platform::Windows, HotKey::RightCommand) => PhysicalKey::AltGr,
        (Platform::Windows, HotKey::RightOption) => PhysicalKey::ControlRight,
        (_, HotKey::Escape) => PhysicalKey::Escape,
    };
    assert(hotkey_for(k, platform) == Some(role));
}

} // verus!
