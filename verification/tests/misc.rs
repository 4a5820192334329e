use speechx::audio::level_emit_due;
use speechx::hotkey::session::{next_retry_delay_ms, INITIAL_RETRY_DELAY_MS, MAX_RETRY_DELAY_MS};
use speechx::audio::{ring_capacity, StreamInfo};
use speechx::config::set_launch_at_login;
use speechx::text::trim_whitespace;

#[test]
fn ring_capacity_is_130_seconds_of_audio() {
    assert_eq!(ring_capacity(StreamInfo { sample_rate: 48_000, channels: 2 }), 48_000 * 2 * 130);
    assert_eq!(ring_capacity(StreamInfo { sample_rate: 16_000, channels: 0 }), 16_000 * 130);
}

#[test]
fn launch_at_login_not_implemented_on_macos() {
    assert_eq!(
        set_launch_at_login(true),
        Err("launch-at-login is not implemented yet on macOS (M8)".to_string())
    );
}

#[test]
fn trim_matches_std() {
    for s in ["", "  ", " a b ", "\u{3000}x\u{85}", "\u{200B}y", "\t\nz\r"] {
        assert_eq!(trim_whitespace(s), s.trim());
    }
}

#[test]
fn level_updates_are_throttled_to_33_ms() {
    assert!(!level_emit_due(0));
    assert!(!level_emit_due(32));
    assert!(level_emit_due(33));
    assert!(level_emit_due(1000));
}

#[test]
fn listener_retry_delay_doubles_up_to_ten_seconds() {
    let mut d = INITIAL_RETRY_DELAY_MS;
    let mut seen = vec![d];
    for _ in 0..5 {
        d = next_retry_delay_ms(d);
        seen.push(d);
    }
    assert_eq!(seen, vec![1000, 2000, 4000, 8000, 10_000, 10_000]);
    assert_eq!(next_retry_delay_ms(u64::MAX), MAX_RETRY_DELAY_MS);
}
