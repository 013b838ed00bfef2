# ecc2

The session dashboard and the process runner of an agent control centre, verified with Verus.

- `src/session/` — sessions and their output. `command.rs` decides, step by step, how a
  session's process is started, captured and recorded; `stream.rs` does the same for each of
  its two output streams; `store.rs` describes single writes to the session store.
- `src/tui/` — the terminal dashboard. `model.rs` is the mathematical model that all contracts
  speak of, `laws.rs` what can be relied on whichever keys are pressed. `dashboard.rs` holds
  the state, `render.rs` draws it, `text.rs` writes its texts. `screen.rs` and `feed.rs` are
  the boundary to ratatui and to tokio's broadcast channels.
- `app/` — joins the library to a store, to live output and to child processes.
- `tests/` — runs the library together with the real ratatui and tokio.

The library performs no I/O. A method that needs something from outside returns a request, and
another method takes the answer.

What is taken on trust is marked `external_body`, `external_type_specification` or `uninterp`: how
ratatui divides an area and paints a widget, what a broadcast receiver returns, and the types
that are only carried through. The `uninterp` functions name what these give without saying more
of it: the cells and the area of a frame, the ways in which an area may be divided, what a widget
makes of the cells, where a receiver stands and what it may receive.
