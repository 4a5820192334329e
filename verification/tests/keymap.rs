use speechx::hotkey::keymap::{HotKey, PhysicalKey, Platform};

#[test]
fn macos_mapping() {
    assert_eq!(HotKey::from_rdev(PhysicalKey::MetaRight, Platform::MacOs), Some(HotKey::RightCommand));
    assert_eq!(HotKey::from_rdev(PhysicalKey::AltGr, Platform::MacOs), Some(HotKey::RightOption));
    assert_eq!(HotKey::from_rdev(PhysicalKey::Escape, Platform::MacOs), Some(HotKey::Escape));
    assert_eq!(HotKey::from_rdev(PhysicalKey::MetaLeft, Platform::MacOs), None);
    assert_eq!(HotKey::from_rdev(PhysicalKey::ControlRight, Platform::MacOs), None);
}

#[test]
fn windows_mapping() {
    assert_eq!(HotKey::from_rdev(PhysicalKey::AltGr, Platform::Windows), Some(HotKey::RightCommand));
    assert_eq!(HotKey::from_rdev(PhysicalKey::ControlRight, Platform::Windows), Some(HotKey::RightOption));
    assert_eq!(HotKey::from_rdev(PhysicalKey::Escape, Platform::Windows), Some(HotKey::Escape));
    assert_eq!(HotKey::from_rdev(PhysicalKey::Alt, Platform::Windows), None);
    assert_eq!(HotKey::from_rdev(PhysicalKey::MetaRight, Platform::Windows), None);
}

#[test]
fn left_modifiers_never_bound() {
    for p in [Platform::MacOs, Platform::Windows] {
        for k in [PhysicalKey::MetaLeft, PhysicalKey::Alt, PhysicalKey::ControlLeft, PhysicalKey::Other] {
            assert_eq!(HotKey::from_rdev(k, p), None);
        }
    }
}
