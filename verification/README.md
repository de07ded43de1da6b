# learning_computer

A terminal viewer over a task snapshot that an agent keeps in a YAML file.

- `src/` is the verified library (Verus): the task model (`model`), decision
  settings kept as a key-ordered map (`settings`), the
  navigation controller with its derived views (`controller`), the decisions
  of loading and reload gating (`loader`), the key bindings, status messages
  and file choice (`ui`), the text of every list row and detail panel, with
  dates written as chrono writes them (`text`), and properties that span several operations (`laws`).
- `app/` is the program around it: reading the YAML file with serde, probing
  and reading the file system, and drawing with ratatui and crossterm.
- `tests/` runs the library on concrete snapshots.

There is no "done" dashboard: the controller has no state for one, so the
keys `6`, `D`, `h` and `l` are left unbound and the footer offers no hints
for them.
