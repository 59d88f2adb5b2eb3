# Lumbus

Highlights the mouse pointer with a configurable circle and shows a letter
(L/R, or I/D in Spanish) while a mouse button is held.

- `src/` — the verified library: event dispatch, settings cache and
  preference keys, slider snapping and control decoding, hex colours,
  mouse/keyboard decisions, the main window's message decisions, redraw and
  resource-cache decisions, the quit dialog's key handling, work over all overlay windows and the
  single-open guard of dialogs, and the localised texts.
- `app/` — the Windows front end (Win32 layered window, Direct2D drawing,
  hotkeys, tray icon, settings window) and the JSON settings file.
- `tests/` — tests of the library.
