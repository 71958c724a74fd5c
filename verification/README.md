# studio

The browser-window logic of the Studio desktop app, verified with Verus.

- `src/` — the verified library:
  - `url` — turning what the user types into an address (`ensure_url_scheme`,
    `urlencoding_simple`);
  - `window` — the tab model of one browser window and its operations;
  - `state` — the windows keyed by label and the commands that act on them;
  - `tab_bar` — the titles shown on tab buttons;
  - `session` — the per-project data-store identifier;
  - `menu`, `updater`, `webview` — the decisions behind the menu, the
    update statuses and navigation responses;
  - `models` — the PencilKit plugin messages;
  - `text` — string helpers.
- `app/` — the Tauri commands, the Cocoa views, the menu, the updater and the
  PencilKit plugin, which perform what the library decides.
- `tests/` — tests of the library.
