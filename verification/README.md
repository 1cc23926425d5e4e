# numflow

Pointer control from the numeric keypad: with Num Lock off, the keypad moves the mouse
pointer, clicks, double clicks and latches a button for dragging; with Num Lock on it types
numbers again.

## Layout

- `src/` is the library, written in Verus. Every function there carries a contract and is
  proved against it; the public proof functions state the properties that hold across calls.
  - `action`, `bindings`, `state`, `motion`: the actions, the binding table, the controller
    state machine and the held movement directions.
  - `keymap`, `normalize`, `hook`: keypad scan codes, repeat handling, and the decisions of the
    low-level keyboard hook (which keys are swallowed, Num Lock tracking, power events).
  - `runtime`: the runtime between normalized key events and a pointer backend.
  - `win_pointer`, `injector`, `linux_pointer`: the pointer records sent to the system and the
    bookkeeping of held buttons.
  - `protocol`, `bytes`: the framed wire format of the input helper.
  - `lifecycle`: the suspend, resume, lock and desktop-switch state machine.
  - `linux`: Num Lock routing of evdev key batches.
  - `config`, `settings`, `bindings_ui`: stored settings, profiles, validation and the binding
    editor.
  - `assistive`, `desktop`, `system`, `audio`, `hud`: the secure-desktop settings and Ease of
    Access handshake, desktop classification, system texts and results, sound cues and the
    feedback window.
- `app/` is the program around the library: configuration files, the Windows hook thread,
  `SendInput`, registry and desktop queries, the motion timing (floating point), and `main`.
- `tests/` exercises the library from outside.

## Not included

- The settings window, the tray menu and the feedback window itself: their user interface
  toolkit is not part of this build. The decisions behind them (profile and preference
  edits, the binding editor, what the feedback window shows and where) are in `src/`
  (`settings`, `bindings_ui`, `hud`).
- The separate input helper that runs with UI access: its process and pipe plumbing is not
  part of this build. The library keeps the parts that decide (`protocol`, the handshake and
  request replies, the pipe name, reconnect pacing and the peer-path check in `system`); the
  program sends pointer input directly with `SendInput`.
