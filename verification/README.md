# nude

Read-only Docker introspection for Nushell: what the Docker daemon reports, as typed tables.

`src/` is the library, with the contracts and proofs of its functions:

- `columns`, `cells`, `top`: `nude container top`. Each `ps` title names and types a column
  (case-insensitively; unknown titles stay string columns under their lower-cased name), and each
  cell's text is typed: integers, KiB as byte sizes, durations, the instant a process started,
  process states, terminals. Durations and start instants are computed from the span, in
  milliseconds, that the cell's text reports.
- `elapsed`: how the text of a `ps` span (bare seconds or `[[DD-]HH:]MM:SS[.ff]`) splits into
  its days and clock fields.
- `history`, `diff`, `network`: `nude image history`, `nude container diff`, `nude network ls`
  and `nude network inspect`.
- `fields`, `value`, `numbers`, `digits`, `text`: cells and their model, numbers, characters.
- `commands`: the commands' names and descriptions.

`app/` is the plugin around it: the connection to the daemon, the shell's arguments, the
conversion of the daemon's payloads into the library's types and of its cells into Nushell values,
and what needs floating point: reading the numbers of a `ps` span as `f64` and rounding the span
to milliseconds, and reading the text of a float cell.

`tests/` runs the library on concrete values.
