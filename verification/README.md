# sshs

A terminal browser for the hosts of SSH configuration files, with its core
verified by Verus.

## Layout

- `src/` — the verified library.
  - `text.rs`: character-level text functions (trimming, splitting, words,
    substring search) with exact specifications.
  - `entry_type.rs`, `config_host.rs`, `pattern.rs`, `host_vec.rs`: the model
    of `ssh_config` host blocks, their keyword entries, wildcard patterns
    (compiled with `regex`), and the passes that spread, apply and merge
    blocks; `merge_laws.rs` states what merging gives.
  - `host.rs`: flat host records, their field list, and the mapping from
    blocks to records.
  - `config_file.rs`, `config_laws.rs`: reading configuration lines into
    blocks and writing a record's block back; the laws of saving.
  - `command.rs`: rendering command templates (`handlebars`) and splitting
    command lines (`shlex`).
  - `ui_logic.rs`, `view.rs`, `listing.rs`, `order.rs`, `host_edit.rs`,
    `form_laws.rs`: the browser's key handling, selection movement, field
    chooser, sorting and searching of the host list, table cells and widths,
    help-line segments, and the edit form.
- `app/` — the terminal front end: file and process I/O, logging, and the
  `ratatui`/`crossterm` interface, driving the library.
- `tests/` — tests of the library.
