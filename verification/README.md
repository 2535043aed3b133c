# serial_tui

A terminal serial-port debugger. The decisions it makes are a library verified
with Verus; the terminal, the serial port, the files and the event loop are a
thin program around it.

- `src/` — the verified library:
  - `app` — the application state and its event handling (keys, received
    data, ticks), stated over an abstract view of the state;
  - `serial` — the connection state machine with its bounded reconnection,
    the port parameters, and the reader's poll/read decisions;
  - `linebuf` — splitting received bytes into lines;
  - `protocol` — hex/ASCII/raw formatting and the line, JSON and Modbus RTU
    parsers with their registry;
  - `config`, `command`, `export` — settings, quick-send commands, and the
    CSV and text export documents;
  - `ui` — text fitting and the visible windows of the panels.
- `app/` — `main`, terminal drawing, serial I/O, storage and export files.
- `tests/` — tests of the library on concrete values.
