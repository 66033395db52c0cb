# papyrus_tui

The state machine behind Papyrus, a terminal library manager for papers and
PDF documents with Vim-style keys, written in Verus: every function in
`src/` carries a contract that Verus proves.

## Layout

- `src/` — the verified library.
  - `panel`, `navigation`, `scroll`, `sorting`, `selection`: panel focus,
    list motions with counts, centred scrolling, sort orders, and the
    selection memory that brings a paper back when a list is rebuilt.
  - `keys`, `keymap`, `action`: key events, the mapping from keys (with
    pending chords and counts) to actions in each context.
  - `fuzzy`, `picker`: the fuzzy matcher and the generic picker (filtering,
    cursor, multi-select).
  - `app` and the `app_*` modules: the application state and every
    operation on it (search, metadata and tag editing, collections,
    deletions, the table-of-contents editor, the pickers); `dispatch` runs
    an action and says which outside work, if any, it asks for.
  - `display`: the text of each row, the depth of table-of-contents entries
    and how far panels scroll.
  - `text`, `decimal`, `clock`, `collections`, `paper`, `toc`,
    `autocomplete`, `search`: strings, numbers, ids and timestamps, small
    maps and sets, the paper and entry records, path completion and the
    search filter.
- `tests/` — tests of the library on concrete values.
- `app/` — the terminal front end: drawing with ratatui, reading keys with
  crossterm, and the file-system work that actions ask for (path lookup and
  directory listings for completion).

The library keeps its state in memory. Importing files, the SQLite
database, the full-text index and launching a PDF viewer belong to the
separate core crate; without it, actions that need them say so in the
status bar.
