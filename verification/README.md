# tauri-plugin-nspopover

A Tauri v2 plugin for macOS that turns a webview window into an `NSPopover`
anchored to the menu bar tray icon.

- `src/` is the verified core (Verus): the popover state the plugin keeps
  (`popover`), what each command and tray event asks of AppKit (`popover`,
  `tray`), the command table (`commands`), the invoker-class registration
  slot and callback types (`action`), the application delegate's data
  (`delegate`), and the laws that tie these together (`laws`).
- `app/` is the Tauri and AppKit glue: it queries AppKit, hands the answers
  to the core, and carries out the effects the core returns.
- `tests/` exercises the core on concrete values.
