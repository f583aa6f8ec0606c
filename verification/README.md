# hagibis_hub_mapper

Remapping engine for the Hagibis UC-1102AG USB-C hub: its two buttons,
rotary knob and Play/Pause key are seized and turned into keyboard
shortcuts, media keys, system events and mouse gestures, with per-app
profiles.

- `src/` is the library, verified with Verus: HID report parsing, the
  key-combo parser and its macOS/Windows key tables, config types, merging
  and validation, mapping resolution, the edge-triggered report handlers,
  the plan of injector calls for each target event, the engine status, the
  log format and filter, the config-file rules, the terminal UI rendering,
  and the OS-independent decisions of the macOS and Windows backends.
- `app/` is the code around it that touches the operating system: the
  config and log files, the IOKit/CoreGraphics and RawInput/SendInput
  backends, the terminal loop and the C API used by the native GUI.
- `tests/` exercises the library.
