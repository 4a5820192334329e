# SpeechX

Offline, background dictation: hold Right Command (Right Alt on Windows),
speak, release, and the words are typed at the cursor of the focused app.
Hold Right Command + Right Option (Right Alt + Right Ctrl) and say a
language name to switch between English, Hindi and Bengali; Esc while
holding cancels.

## Layout

- `src/` — the `speechx` library, verified with Verus:
  - `hotkey/chord.rs` — the chord-resolution state machine and its laws
    (every release returns to Idle, a recording's mode is fixed once
    resolved, Esc cancels exactly a recording, Cancelled is terminal).
  - `hotkey/session.rs` — the hotkey loop's decisions: which event starts
    or drops audio capture, arms the timer, shows the pill or runs a
    pipeline; the driver keeps the timer running exactly while arming
    and capture running exactly while arming or recording.
  - `hotkey/keymap.rs` — which physical key plays which role per platform.
  - `hotkey/mod.rs` — the non-speech transcript filter, pill labels and
    the result of a language-switch command.
  - `lang.rs` — registry entries, language codes, and the words of a
    spoken command that are matched against aliases.
  - `asr.rs` — languages, transcripts, errors, engine routing.
  - `inject.rs` — UTF-16 encoding and the synthetic key events that type
    text on Windows, and the choice between typing and pasting.
  - `audio.rs`, `config.rs`, `text.rs` — capture sizing, settings, and
    white-space / punctuation handling.
- `app/` — the Tauri application around the library: key listener, audio
  capture and resampling, recognizers, injection, overlay, tray.
- `tests/` — tests of the library.
