# desktop_switcher

A tray program for Windows that switches virtual desktops when the mouse wheel
turns at the left screen edge, and opens the task view on a middle click there.

- `src/` is the verified library: the gesture state machine and the hook
  runtime (`mouse_hook`), the left-edge geometry (`screen_edge`), the key
  sequences of the desktop shortcuts (`desktop_switch`), the feature settings
  (`config`), UTF-16 encoding and lossy decoding (`utf16`), the start-up
  registry entry and the decisions of its look-up (`startup`), and the tray
  window's message handling and menu (`tray`).
- `app/` is the program around it: the Win32 calls, the thread-local hook
  runtime, the configuration file and its TOML form.
- `tests/` runs the library on concrete values.
