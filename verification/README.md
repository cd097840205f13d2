# mxks

The verified core of MX Keyboard Switcher, a keyboard-layout switcher that
fixes words typed in the wrong layout (`ghbdtn` → `привет`) and converts the
last word on a hotkey (Russian ↔ English).

- `src/` is the library, written in Verus: every function carries a
  `requires`/`ensures` contract that Verus proves. It holds the physical-key
  model and layout tables, text conversion, the word buffer, the dictionary
  and completion ranking, hotkey parsing, editing one key of the configuration text, the diagnostic
  log's directory and rotation decisions, the learned autocomplete counters,
  the engine's decisions and word session, the corrector, and the decision
  logic of the X11, Windows and macOS backends (key maps, echo suppression,
  hotkey edges, event classification, injection batches, layout detection).
  Public `law_*` proof functions state properties that span functions.
- `tests/` runs the library on concrete inputs.
- `app/` is the Linux/X11 program around the library: the event loop, X11
  capture, injection, layout switching and the suggestion overlay, the
  configuration, counter and diagnostic log files, and the floating-point
  bigram scorer.
