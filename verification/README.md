# pgterm

A terminal client for Postgres: a SQL editor with syntax highlighting, a
results table that scrolls in both directions, and a side bar of tabs and
tables. The library under `src/` holds the client's state and rules, each
function with a contract that Verus proves; `app/` runs them against the
terminal and the database.

- `command`: keys, modes, panes, and the command each key asks for.
- `app`: the client with side tabs, as a state machine over commands.
- `classic`: the two-pane client, with keys handled directly.
- `playground`: a small list demo.
- `results`, `list`, `tables`, `tabs`, `editor`: the panes.
- `highlight`, `styles`: SQL highlighting and colours.
- `pgtype`, `db`: turning query rows into text.
- `seqs`: rotation of sequences, used by the scrolling panes.
