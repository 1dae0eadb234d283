# via_engine

A Windows GUI automation engine for AI agents — clicking, typing, moving
windows, switching virtual desktops and reading the UI Automation tree —
with its decisions verified by Verus.

The verified library (`src/`) decides; the code around it (`app/`) talks to
the system.

- `src/engine.rs` — the engine: for each request, the exact window
  operation or input events that carry it out; decoding what the system
  reports about windows.
- `src/input.rs` — synthesised keyboard and mouse input: typing plans,
  clicks, pointer moves in normalised coordinates, the desktop-switch chord.
- `src/uia.rs` — the compressed UI map: one line per element, at most 5000
  elements and 20 levels, and the walk of the tree that decides which
  element to read next.
- `src/guid.rs`, `src/number.rs`, `src/text.rs` — parsing of GUIDs and
  integers with the semantics of `from_str_radix`, number rendering, lossy
  UTF-16 decoding.
- `src/json.rs`, `src/command.rs` — JSON values as the front ends read them,
  and the requests they turn into.
- `src/mcp.rs`, `src/plugin.rs`, `src/cli.rs`, `src/listing.rs` — the three
  front ends' reading of parameters and their answers.
- `app/` — Win32, UI Automation and COM calls, the MCP server loop on
  standard input and output, the `via` command line, and the C-ABI plugin.
  It builds on Windows only.

The tests under `tests/` run the library on concrete values.
