# seriust

A serial-port monitor for the terminal. The session logic is a Verus
library under `src/`; `app/` is the program around it: command line,
terminal, drawing, the port and the worker thread that owns it.

## Layout

- `src/app.rs` — the session state (`App`) and its model (`AppView`), the
  small types around it, line heights, the click counter.
- `src/output.rs` — received text cut into lines, the line limit, row counts,
  readying the output area for drawing.
- `src/events.rs` — keys, mouse and terminal events; typed input and what is
  sent for it.
- `src/menu.rs` — the options menu: entries, cursor, settings.
- `src/session.rs` — opening and closing the port, the worker's messages,
  port scans, start-up from the command line.
- `src/serial.rs` — the serial configuration, messages to and from the
  worker, and the worker's decisions.
- `src/ui.rs` — what the screen shows: the lines in view, selections,
  clipboard bytes, status bar, menu and port-list text, popup placement.
- `src/text.rs` — character and string helpers.
- `src/laws.rs` — properties that span operations.

The session never performs outside work itself: operations return an
`Effect` (open the port, close it, write bytes) that `app/` carries out,
handing the outcome back (`App::finish_connect`, `App::apply_serial_events`,
`App::apply_port_scan`).
