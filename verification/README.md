# flcq

Host software for the FLCQ meter (frequency, inductance, capacitance), which
talks to the host over a serial line.

`src/` is a library verified with Verus:

- `protocol` — the request frames (EEPROM byte read / write, temperature,
  counter measurements) and the decoding of the meter's replies.
- `counter` — the pulse count carried by a counter reply (prescaler, timer,
  overflow count) and the accumulation of a series of replies.
- `encoding` — eight-byte values (floating-point bit patterns) as laid out in
  EEPROM, least significant byte first, with the round-trip laws.
- `eeprom` — the EEPROM map and the cache of the calibration values kept
  there as running means, with the updates that are queued for writing.
- `toggle` — the exclusive choice between typed-in and saved reference values.
- `connection` — the connect / disconnect state machine.
- `measurement` — the two-frequency measurement sequence.

`app/` is the conrod desktop program around it: serial I/O through
`serialport`, the window, and all floating-point arithmetic (frequencies,
temperatures, running means, the L and C formulas).

`tests/` runs the library on concrete frames and values.
