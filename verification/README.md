# squirrel

A terminal client for PostgreSQL: named connections, saved SQL queries, and
their results shown a page at a time. Everything the program decides is in
the verified library under `src/`; `app/` is the terminal program around it.

## Library (`src/`)

- `text` — decimal numbers, parsing of port numbers, whitespace trimming,
  case-insensitive keywords.
- `models` — connection settings, the form that edits them, and paginated
  query results.
- `storage` — the layout of the files under the home directory, and which
  directory entries are saved connections and queries, in sorted order.
- `db` — which statements return rows, and how returned rows become a result.
- `app` — the screens, keys, and the work the application asks for
  (`Effect`) and gets back (`Outcome`).
- `flow` — the transitions of the application stated over mathematical
  values, with the properties they keep.
- `view` — the text the screens show.
- `cli` — command-line options and the choice of editor.

## Program (`app/`)

Reads keys with crossterm, draws with ratatui, keeps files with `std::fs` and
`toml`, and talks to the database with `tokio-postgres`. It performs each
`Effect` the library asks for and hands the `Outcome` back.
