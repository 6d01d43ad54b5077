# systray

A system-tray icon for Windows, split in two.

`src/` is the verified library. It holds everything the tray icon decides
or computes, with contracts proved by Verus:

- `menu`: the popup menu's bookkeeping (`TrayMenu`): positions of new items,
  the records to insert for text items and separators, the order in which
  the menu is cleared, the callback table and the handling of events from
  the window thread, all against an abstract `MenuModel`.
- `wide`: NUL-terminated UTF-16 strings for the wide Win32 functions, with
  a proof that they decode back to the text.
- `notify`: the `Shell_NotifyIconW` requests (add, tooltip, icon, delete);
  the tooltip is encoded with the `encoding` crate and cut to the shell's
  128-unit buffer.
- `window`: how the window procedure routes messages, menu-command events,
  the popup menu's setup and the offset of an icon image in a buffer.
- `error`: the text of OS errors, with the error code in decimal.
- `event`, `consts`: the events and errors of the library and the Win32
  constants it uses.

`app/` is the Win32 side, built on Windows only: the window thread and its
message loop, the window procedure, and the `Window` type whose methods make
the Win32 calls that the library prepares.
