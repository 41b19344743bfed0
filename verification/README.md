# deni_desktop

The verified core of the Deni AI desktop shell, a Tauri wrapper around the
hosted chat app at `https://deniai.app`.

- `src/` is the library, proved with Verus:
  - `url_guard` — which URLs stay in the app window (chat and sign-in routes,
    the Google sign-in flow); URLs are parsed with the `url` crate.
  - `state` — the shell's state: page on show, zoom level (a whole
    percentage, kept between 80 and 200), latest download, quit and tray
    notice flags.
  - `webview` — decisions on links, new windows, page loads, downloads,
    close requests, a second launch and menu commands.
  - `menu`, `tray` — the menu bar and tray menu, their command ids, and the
    tray clicks that bring the window back.
  - `updater` — what each step of an update check reports.
  - `text` — character-level string comparisons.
- `app/` is the Tauri shell that builds the window, menus and tray icon and
  carries out what the core decides.
- `tests/` runs the library on concrete inputs.
