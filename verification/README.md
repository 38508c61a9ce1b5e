# tmc

The verified core of Tommy Memory Cleaner, a Windows utility that frees
memory on demand, on a schedule, or when free memory runs low.

- `src/` is a Verus library: every function states its behaviour in
  `requires`/`ensures` and Verus proves it. It holds the logic of the
  program: memory-area sets and profiles, settings validation and edits,
  input sanitizing and rate limiting, the planning and bookkeeping of an
  optimization run, the background scheduler, the tray icon and menu
  decisions, console-mode parsing, startup registration texts, hotkey
  parsing, translations and notification texts.
- `app/` is ordinary Rust around it: the console entry point, the calls into
  Windows (memory counters, privileges, system calls, registry, scheduled
  tasks), settings files, and the background loop. It asks the library what
  to do and performs it.
- `tests/` runs the library on concrete values.
