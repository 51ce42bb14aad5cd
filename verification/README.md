# any_crosshair

A Windows tray tool that shows any PNG image as a crosshair in the middle
of the screen, toggled by a hotkey (F9 to F12, optionally with Ctrl) or by
clicking the tray icon.

- `src/` is the verified library: the window-message state machine
  (`controller`), the tray menu and tooltip (`menu`), the hotkey table
  (`hotkey`), the setting file format (`setting`), UTF-16 text (`text`),
  image handling (`pixels`, which calls the `image` crate), window and blit
  geometry (`geometry`) and the ICO container (`icon_file`).
- `app/` is the Windows program: it owns the window, tray icon, registry
  entry and files, and performs the actions that the library decides on.
  It embeds `crosshair.png` (tray icon) and `default.png` (default
  crosshair) from the crate root.
- `tests/` exercises the library on concrete values.
