# subzero

`sz` is a terminal user interface for quick data exploration in Snowflake:
browse the catalog, run SQL in an embedded neovim editor, look at results as
a table or a simple chart, and keep a history and saved queries.

## Layout

- `src/` — the library, verified with Verus. It holds the state of every
  pane and the decisions taken on each key and each reply: navigation and
  focus, the catalog tree and fuzzy search, the results and preview tables,
  the chart settings, the background tasks, the theme and its editor, the
  query history and saved queries, the cache state across connection
  switches, the parsing of the `snow` command line's JSON output, key
  encoding for the editor, the catalog handed to the editor's completion,
  the column layout of the results table, the columns a chart is drawn
  from, and CSV export. Each public function states in
  its contract what it returns or changes; the laws that span functions are
  public proof functions beside them.
- `app/` — the program around the library: the terminal and drawing, the
  `snow` processes, the neovim process and its RPC connection, the files of
  the cache directory, chart geometry (floating point), and the event loop
  that hands keys and replies to the library and carries out the actions it
  returns.
- `tests/` — tests of the library on concrete values.
