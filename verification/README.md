# Ratado

A keyboard-driven terminal task manager. Its logic is a library verified
with Verus; a thin program around it owns the terminal and the database.

## Layout

- `src/` — the verified library
  - `models/` — tasks, projects, priorities, filters and sort orders
  - `app.rs` — the application state: selection, views, scope, counts
  - `handlers/` — key bindings, commands and event handling: each turns the
    state and an event into the next state and the storage work to do
  - `ui/` — text inputs, the description editor, tag input, date picker,
    calendar, search, dialogs, and the rows the screens show
  - `storage/` — how rows are read and written, SQL clauses, schema versions
  - `utils/` — dates relative to a clock, identifiers
  - `text.rs`, `keys.rs` — characters, UTF-8 lengths and key events
- `tests/` — tests of the library
- `app/` — the program: command line, Turso database, crossterm events and
  ratatui drawing

## Time

Functions that depend on the current time take a `Clock` (an instant and
the local offset from UTC); the program reads one for each event, so every
decision of one event sees the same "now".
Every instant of one event is turned into a local day with that one
offset, so a date on the far side of a daylight-saving change is placed by
the offset in force now, not by the one in force on that date.
