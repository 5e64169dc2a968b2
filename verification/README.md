# zalo-tauri

A Linux desktop shell for the Zalo chat web page: a compact title bar, a
tray icon whose close button hides the window instead of quitting, a single
running instance, and web notifications shown as desktop notifications.

- `src/` is the verified library (Verus). It decides what the shell does:
  - `window`: commands on the main window (show, hide, maximize, answer a
    close request) and a model of their effect, with the laws that closing
    hides to the tray and that a second launch brings the window to the
    front;
  - `tray`: the tray menu and what each entry does; only "quit" exits;
  - `titlebar`: the window buttons, their look and what a click does;
  - `drag`: the drag-to-move and double-click-to-maximize state machine of
    the title, with the law that each press moves the window at most once;
  - `notifications`: the desktop notification built from a web
    notification, the answer to its actions, and which permissions the page
    gets.
- `app/` is the shell itself: Tauri, GTK and WebKitGTK plumbing that reads
  events, asks the library, and carries out the answers.
- `tests/` runs the library on concrete values.
