# co2_panel

A CO2 measurement panel for a Raspberry Pi display. C programs set
measured values (CO2, humidity, temperature, pressure) through a small C
interface; a full-screen UI shows them, colours them against warning and
alarm limits, and reports touch-button events back to the C program over
a local Unix socket (newline-delimited JSON).

Layout:

- `src/` — the library, verified with Verus:
  - `protocol.rs` — the messages and configuration, line framing, the
    `f32` encoding of whole numbers;
  - `panel.rs` — the panel's state machine: stored values, the bounded
    event queue, the buttons, and the answer to every request, with the
    laws that tie them together;
  - `c_api.rs` — what each C call sends and reports, the C default
    configuration and its conversion;
  - `display.rs` — units, status labels and the clock/date header text;
  - `text.rs` — decimal formatting helpers.
- `tests/` — tests of the library.
- `app/` — the UI program (eframe), the socket server, the backlight, the
  `extern "C"` functions and the serde copies of the protocol types.

Measured values, limits and event values are `f32` on the wire and in C;
the library carries them as their IEEE-754 bit patterns and never does
floating-point arithmetic.
