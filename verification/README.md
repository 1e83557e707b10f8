# Messenger X — verified core

Messenger X is a desktop shell around the Messenger web app.  This crate is
its decision-making core, written in Verus: every function in `src/` carries
a contract that Verus proves, and the properties the app relies on are stated
as proof functions next to the code they are about.

## Layout

- `src/` — the verified library (`messengerx`):
  - `notif_state`, `unread`, `dispatcher`, `sender_hint`: when an unread
    count becomes a notification, the tray tooltip and badge, duplicate
    suppression, and the sender named in a notification;
  - `title`, `main_window`, `crash_detect`: what a window title means, and
    recovery from a crashed web process;
  - `navigation`: which URLs load in the window, which open in the browser,
    which popups open, and which thread a restart returns to;
  - `startup`, `visibility`, `menu`, `updates`, `download`, `snapshot`,
    `proxy`, `locale`, `notify`, `offline`, `scripts`: the start plan, the
    Linux visibility poll, the menus, update checks, download and snapshot
    file names, WebView2 proxy arguments, translations, notification sinks
    and the scripts injected into the page;
  - `text`: character-level string helpers with their specifications.
- `tests/` — tests of the library on concrete values.
- `app/` — the desktop program: windows, menus, files, processes and the
  notification plugins, calling the library for every decision.
