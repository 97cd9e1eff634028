# shellpad

A terminal program for organising shell commands into groups and sets and
running them, with `{{var}}` templates, stop-on-error or continue-on-error
runs, deferred commands that always run last, and a command line for
running, searching and exporting sets.

The logic is a library verified with Verus; the program around it is plain
Rust.

## Layout

- `src/` — the verified library.
  - `models`, `models/queries`, `models/edit` — groups, sets, commands and
    variables, their lookups and their edits.
  - `app` — the state machine of the interface: what each action and key
    does, and the outside work (saving, starting and signalling a run) it
    asks for. Laws such as the help round trip, reorder round trips and the
    cancelled delete are proved here.
  - `ui/*` — the screens' state: main lists, the set editor, the execution
    screen (events, scrolling, search, output rows), the variable prompt,
    toasts, text inputs and scrollable lists. `ui/execution_events` proves
    what a whole batch of run events keeps (the output limit, the counters)
    and that skipping the rest of a run and continuing restores it.
  - `executor`, `executor/run` — variable substitution, the order in
    which a run's commands take their turns, and how each command's end is
    reported and counted.
  - `cli` — resolving a set by id or by names, variable overrides, search
    and export.
  - `text`, `lowercase`, `search` — strings as character sequences, UTF-8
    offsets, case-insensitive and fuzzy matching.
- `app/` — the program: terminal setup and drawing, the event loop, child
  processes, the data file, and argument parsing.
- `tests/` — tests of the library.
