# devme-tui

The terminal dashboard of devme and the presentation rules of its command line,
as a verified library and a program around it.

- `src/` is the library: what the dashboard knows and shows, what keys and
  mouse events mean, how worktrees and sockets are handled, how one-liners and
  sections are written. Every function states what it does, and Verus proves
  it; where the clock decides, it states what holds at any time. What holds
  across functions stands in the `laws` modules and next to the functions it
  speaks of.
- `app/` is the program: it owns the terminal, the daemons' connections, file
  watchers and child processes, and hands plain values to the library.
- `tests/` runs the library on concrete values.
