# zebar

The configuration logic of the Zebar desktop shell (Logical Lunge build), as
a Verus-verified library.

- `src/app_settings.rs`: the settings file's model, its default (the shell's
  widgets) and the fall-back to it when the file cannot be read or parsed.
- `src/widget_pack.rs`: the widget pack config model (`zpack.json`), the
  files a pack includes, defaults of config fields, and the placement of a
  widget started from the command line.
- `src/widget_pack_manager.rs`: widget packs by ID, with lookup, insertion
  (a pack replaces the one with its ID) and the laws that relate them.
- `src/fs_util.rs`: byte order marks before JSON text, and file extensions.
- `src/cli.rs`: commands, and what they decide: the widgets to open, the
  log level, the config directory, and a second instance's command line.
- `src/shell.rs`: the answer to a request to exit, and the steps taken for
  each event of the running shell.
- `app/`: file I/O, JSON (de)serialization with serde, and the async state
  around the library.
