# Softveil

A software privacy filter for macOS and Windows: a transparent overlay on
each display draws interference patterns that keep the screen readable from
the front and unreadable from an angle. A tray menu sets each display's mode,
alpha, intensity and pattern; a global shortcut switches every filter; a
camera watch can raise the filter when someone looks over the shoulder; a
benchmark measures the displays and proposes presets.

## Layout

- `src/` — the verified library (Verus). Every decision of the application
  lives here with its contract:
  - `display_config`, `store` — display settings, profiles, the store of
    settings by position and the cache of disconnected displays;
  - `app`, `events`, `hotplug`, `overlay` — the application state, what each
    menu command does, display hot-plugging, the parameters of each overlay;
  - `menu`, `tray`, `i18n` — menu ids (written and read back), the tray menu
    as a list of entries, the interface language;
  - `platform`, `display_report`, `benchmark`, `ai_detection`, `hotkey` —
    the decisions behind the system calls: display category and PPI, panel
    type, display names from the system report, scripts, screenshot pixels,
    the benchmark plan and scoring, the camera worker;
  - `numeral`, `text` — decimal and hexadecimal text, fixed-point numbers;
  - `laws` — properties that span several operations.
  Decimal quantities (alpha, intensity, millimetres, PPI, progress) are held
  as integers in ten-thousandths.
- `tests/` — tests of the library.
- `app/` — the program: event loop, windows and GPU drawing, tray icon,
  camera and model, system calls, the settings file. It hands plain values to
  the library and carries out what it returns.

The overlay shader (`shader.wgsl`), the face-detection model
(`face_detector.onnx`) and the tray icons are read at run time from the
application's resources.
