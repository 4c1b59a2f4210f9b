# buffer_pie

The logic of a pie-menu launcher: hold caps lock and move the cursor to open
a ring of items at the point where the motion started, release caps lock to
run the item under the cursor, press escape to dismiss it. Items run a
command, open an app, or replay a recorded key macro.

`src/` is the library, verified with Verus:

- `text` — trimming and splitting on whitespace, parsing and formatting
  numbers, prefixes, lowercase.
- `keys` — keys and their readable labels.
- `input` — the input state machine that opens and closes the menu, and the
  macro recorder, with their laws.
- `actions` — the actions of items and the plans that run them.
- `config` — menus, items, colors and the default configuration.
- `pie` — the menu view's state: which menu shows, what closing it fires.
- `editor` — the operations of the settings window.
- `assets` — which asset a path names, item icons, icon extraction.

`app/` is the program around it: the window and widgets, the global input
hook, the tray icon, processes, key simulation and the configuration file.
It reads its logos, font and tray icon from a `resources` directory beside
the executable.
