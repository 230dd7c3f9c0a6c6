# mcproc

A process manager for development servers, driven from the command line and
through the Model Context Protocol (MCP). Processes are grouped by project,
their output is kept in log files, and a background daemon owns them.

## Layout

- `src/` is the library, written in Verus. Every function there carries a
  contract that Verus proves: name validation, process keys, paths and
  configuration, the daemon's start/stop/status decisions, the MCP protocol
  state machine (requests, batches, notifications, tool calls), the JSON that
  each tool answers with, log formatting and filtering, and the command-line
  commands' requests and reports. Calls into `chrono`,
  `strip-ansi-escapes` and `tabled` stand behind small trusted wrappers whose
  contracts are documented beside them.
- `app/` is the program around the library: argument parsing, terminal
  colours, signals, sockets, files and the stdio MCP loop. It performs the
  I/O that the library decides on.
- `tests/` runs the library on concrete values.
