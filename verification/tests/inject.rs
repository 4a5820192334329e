use speechx::inject::{
    clipboard_utf16, encode_utf16, injection_strategy, make_unicode_input, make_vk_input,
    paste_key_inputs, send_input_complete, uia_new_value, unicode_key_inputs, InjectError,
    InjectionStrategy, KeyInput, VK_CONTROL, VK_V,
};

#[test]
fn utf16_matches_std() {
    for s in ["", "abc", "বাংলা", "हिंदी", "a😀b", "\u{10FFFF}\u{FFFF}"] {
        assert_eq!(encode_utf16(s), s.encode_utf16().collect::<Vec<u16>>());
    }
}

#[test]
fn surrogate_pair_for_emoji() {
    assert_eq!(encode_utf16("😀"), vec![0xD83D, 0xDE00]);
}

#[test]
fn clipboard_text_is_nul_terminated() {
    assert_eq!(clipboard_utf16("hi"), vec![0x68, 0x69, 0]);
    assert_eq!(clipboard_utf16(""), vec![0]);
}

#[test]
fn unicode_inputs_press_then_release_each_unit() {
    assert_eq!(
        unicode_key_inputs("a😀"),
        vec![
            KeyInput { vk: 0, scan: 0x61, flags: 4 },
            KeyInput { vk: 0, scan: 0x61, flags: 6 },
            KeyInput { vk: 0, scan: 0xD83D, flags: 4 },
            KeyInput { vk: 0, scan: 0xD83D, flags: 6 },
            KeyInput { vk: 0, scan: 0xDE00, flags: 4 },
            KeyInput { vk: 0, scan: 0xDE00, flags: 6 },
        ]
    );
}

#[test]
fn key_input_builders() {
    assert_eq!(make_unicode_input(0x995, false), KeyInput { vk: 0, scan: 0x995, flags: 0x0004 });
    assert_eq!(make_unicode_input(0x995, true), KeyInput { vk: 0, scan: 0x995, flags: 0x0006 });
    assert_eq!(make_vk_input(VK_V, false), KeyInput { vk: 0x56, scan: 0, flags: 0 });
    assert_eq!(make_vk_input(VK_CONTROL, true), KeyInput { vk: 0x11, scan: 0, flags: 0x0002 });
}

#[test]
fn paste_is_ctrl_v() {
    assert_eq!(
        paste_key_inputs(),
        vec![
            KeyInput { vk: 0x11, scan: 0, flags: 0 },
            KeyInput { vk: 0x56, scan: 0, flags: 0 },
            KeyInput { vk: 0x56, scan: 0, flags: 2 },
            KeyInput { vk: 0x11, scan: 0, flags: 2 },
        ]
    );
}

#[test]
fn strategy_by_script() {
    assert_eq!(injection_strategy(""), InjectionStrategy::Nothing);
    assert_eq!(injection_strategy("hello, world!"), InjectionStrategy::SendInput);
    assert_eq!(injection_strategy("hello বাংলা"), InjectionStrategy::Clipboard);
    assert_eq!(injection_strategy("caf\u{e9}"), InjectionStrategy::Clipboard);
}

#[test]
fn send_input_shortfall() {
    assert!(send_input_complete(6, 6));
    assert!(!send_input_complete(5, 6));
}

#[test]
fn uia_inserts_at_the_caret() {
    assert_eq!(uia_new_value("ab", 0, "x"), "xab");
    assert_eq!(uia_new_value("ab", 1, "x"), "axb");
    assert_eq!(uia_new_value("Dear ", 5, "বাংলা"), "Dear বাংলা");
    assert_eq!(uia_new_value("আমি ভাত", 3, " রোজ"), "আমি রোজ ভাত");
    assert_eq!(uia_new_value("", 0, "hi"), "hi");
}

#[test]
fn inject_error_messages() {
    assert_eq!(InjectError::Connect("x".to_string()).message(), "failed to connect to the input system: x");
    assert_eq!(InjectError::Send("y".to_string()).message(), "failed to send text: y");
}
