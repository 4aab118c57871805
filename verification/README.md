# reqly

A terminal API client for HTTP, GraphQL and WebSocket endpoints, with a
command line and an interactive terminal interface. The logic of the client
is a library verified with Verus; the program around it does the I/O.

## Layout

- `src/` — the verified library.
  - `text.rs`: trimming, line splitting, decimal and hex rendering, UTF-8
    offsets; the few `String`/`str` calls the library trusts.
  - `headers.rs`: `HeaderList`, a header table with distinct names kept in
    insertion order, with its laws (read after write, other names unchanged).
  - `utils.rs`: parsing `Key: Value` header lines.
  - `formatter.rs`: JSON recognition and pretty-printing through
    `serde_json`, stated over named results.
  - `http.rs`: requests, the checks a request must pass before sending
    (method and header syntax as `http` accepts it), responses.
  - `cli.rs`: the command line's requests and status classes.
  - `graphql.rs`: GraphQL request bodies and replies.
  - `websocket.rs`: connection states, frame display, sent lines.
  - `tui/`: the interface state (`app.rs`), the key bindings as a step from
    state and key to state and action (`events.rs`), and the text of each
    pane (`ui.rs`).
  - `storage.rs`: the history records.
- `app/` — the program: argument parsing (clap), the network (reqwest,
  tokio-tungstenite), the terminal (crossterm, ratatui) and the history
  database (rusqlite).
- `tests/` — tests of the library.
