# true_tick

The decision and presentation core of the True™ Tick notification-area application, which
manages a user-mode timer-resolution request on Windows, written in Verus with its behaviour
stated in `requires` / `ensures` contracts and proved.

- `src/` is the verified library: tray status, tooltips and menus; the quit, hand-off,
  startup and scheduled-deadline decisions; the diagnostic window's layout, search, export
  format and event classification; the marquee selection state machine; tray-icon recovery,
  power debounce and heartbeat tracking; the IPC status payload, request decoding and
  command queue.
- `tests/` runs the library on concrete values.
- `app/` holds the pieces that live outside verification: the status snapshot and command
  queue shared between threads, and the `#[repr(C)]` list-view structures exchanged with
  Win32.
