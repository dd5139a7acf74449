# hanyeongkey

A Windows background utility that fixes text typed in the wrong keyboard
layout: select the text, press the Hangul/English key, and the selection is
converted between the two-set Korean layout and QWERTY in place.

## Layout

- `src/` — the library, verified with Verus.
  - `converter/` — conversion both ways: jamo tables, syllable composition,
    and the laws of the conversion (every run of modern syllables round-trips
    through its keys, and plain keys round-trip through Korean; characters no
    key types are copied and split composition).
  - `coordination/` — choosing the direction, the state machine that runs one
    conversion operation at a time, what one whole operation adds up to, and
    privacy-safe diagnostics.
  - `hook.rs`, `input.rs` — which key events start a conversion, when the
    key is given back to the system, and the marked key sequences the
    utility injects.
  - `selection.rs`, `replace/` — the provider policy (UI Automation first,
    clipboard as fallback), line-ending handling, and outcome mapping.
  - `input_language/` — input-language synchronization: reading the
    language, and the state machine that changes it (the target is re-checked
    before every change; at most one fallback key press, only after a
    read-back mismatch).
  - `clipboard.rs`, `utf16.rs` — clipboard transaction and format decisions
    (the saved clipboard goes back only over the utility's own contents),
    UTF-16 encoding and decoding.
  - `settings/` — the settings model, the store's update state machine, and
    startup registration.
  - `tray.rs` — the tray icon's pixels.
- `app/` — the Tauri application and the Windows platform code that performs
  what the library's state machines ask for.
- `tests/` — tests of the library.
