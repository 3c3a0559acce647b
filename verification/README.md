# ohos_plugins

Verified decision logic of a set of OpenHarmony plugins for Tauri applications,
written in Verus.

- `src/` is the verified library. Each module holds the plain-value logic of one
  plugin: `window_state` (what a save writes into the window-state cache, what a
  restore reads back and applies, and the lifecycle handlers, with the laws that
  relate them in `window_state/laws.rs`), `continuation`, `permissions`,
  `process`, `screenshot`, `updater` and `account`; `bridge` holds the failure
  texts shared by the bridge-backed plugins.
- `app/` is the unverified command layer: Tauri commands that reach the
  platform (the OpenHarmony app instance, its bridge facades, the file system),
  hand what it answered to the library and perform what the library decides.
- `tests/` runs the library on concrete values.
