# rust_text_editor

A small modal (vi-like) text editor whose core is verified with Verus.

- `src/` is the verified library:
  - `text_buffer` — a rope-backed buffer with a cursor, line-aware cursor
    moves, and hashes that tell whether the text changed since it was saved;
  - `mode_manager` — the command line (`:w`, `:q!`, `:42`, `/term`,
    `:%s/a/b/`, ...) and normal-mode key sequences (`dd`, `yy`, `gg`, ...);
  - `server` — an in-process editor server that holds buffers and clients
    and sends each change of a buffer to the clients that follow it;
  - `client` — a client that owns a server connection;
  - `editor` — the front end: key handling per mode, commands, saving,
    status lines, viewport and scrolling;
  - `syntax` — tree-sitter highlighting of Rust sources;
  - `text`, `rope_text` — character-level helpers and the model of a
    `ropey::Rope` (its text, lines and byte offsets).

  Every operation states its result over a mathematical model (`Seq`, `Map`,
  `Set`); what only tree-sitter or the operating system decides (which
  captures a query reports, random identifiers, I/O error texts) is given
  a name or stated as far as their documentation goes. The laws that relate operations (an insertion undone by a
  backspace, edits reaching exactly the subscribed clients, `:q` never
  dropping unsaved changes, the viewport always showing the cursor, ...)
  are proof functions.
- `app/` is the terminal program: it reads files, runs the crossterm event
  loop, draws the screen, performs the file writes that commands ask for,
  and holds serialisable copies of the event types.
- `tests/` exercises the library on concrete inputs.
