# rk-bar

A status bar for the sway window manager, built on GTK and gtk-layer-shell.

- `src/` is the verified library: where a bar sits and how its sections are
  filled (`bar`), which sway events reach which module (`modules::sway`),
  what the window-title and workspace modules show
  (`modules::sway::title`, `modules::sway::workspaces`), what the clock
  reads and how long it sleeps (`modules::clock`), and how bars follow
  monitors (`output`).
- `app/` is the program around it: the GTK widgets, the sway IPC
  connection, the clock thread and the monitor callbacks.
- `tests/` runs the library on concrete values.
