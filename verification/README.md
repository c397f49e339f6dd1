# piforma_panel

The logic of the PiForma menu-bar panel as a library verified with Verus, and
the Tauri application around it.

- `src/` is the verified library: configuration defaults, normalization and
  path expansion; parsing of `.desktop` launchers and the ordered, de-duplicated
  launcher list; cleaning of `Exec` lines and the argument lists of detached
  launches; the decisions of a detached launch, of launching with fallbacks and of
  asking for a confirmation (each a step function from state and outcome to
  the next action); what every panel and system action runs, and the actions
  that the older commands request by name; panel geometry, popup
  anchors and window-manager struts; the remembered desktop window, which is never one
  of PiForma's shell windows; the shell's window identities; the frontend
  asset report read from the Tauri configuration; and the reading of network and audio tool output.
  Public proof functions state the library's laws.
- `app/` is ordinary Rust: the Tauri commands, windows and GTK sizing, the
  configuration file, directory walks, and running the programs that the
  library chooses. It converts between the library's types and the copies that
  carry serde's derives.
- `tests/` runs the library on concrete values.
