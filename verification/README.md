# RAMOpt

RAMOpt is a native Windows memory-maintenance program. This repository holds its logic as a library
that Verus verifies, and the program around it.

- `src/` is the library: settings, changes of them, the steps of a cleanup and of each memory area,
  what the program says, versions and updates, the hotkey, the tray menu, the schedule, the log, and
  how instances meet. Whatever alternates with calls on Windows is written as a stage and a function
  from a stage and a reply to the next stage, so that every decision has a contract.
- `tests/` runs the library.
- `app/` is the program: the calls on Windows, files, threads, the window and the tray icon. It asks
  the library what to do and hands the replies back. The window needs `slint`, the description of the
  window and the icon file beside it.

Floating point is not used in the library. Amounts of memory are whole numbers of bytes, and
`src/rounding.rs` rounds them where double-precision arithmetic would.

The properties that hold of the library as a whole are the public proof functions whose names begin
with `law_`.
