# wattson

A terminal front end for RPM-series RF power meters, with its core written
in Verus.

- `src/` is the verified library:
  - `protocol` — the serial framing (`55 AA CMD LEN ~LEN DATA CHK`): frame
    builders, the checksum, and a resynchronising frame parser whose result
    is specified by a scan over the received bytes.
  - `model` — the eight meter models, their frequency and power tables, the
    calibration container, and the search for the calibration frequencies
    that bracket a measurement frequency.
  - `device` — the start-up conversation (identify, configure, load the
    calibration table row by row, with retries) as a state machine.
  - `state` — the bounded waveform history.
  - `input`, `ui` — key bindings and terminal-independent layout decisions.
  - `text` — decimal rendering for status messages.
- `app/` is the program around it: the serial port, threads, the terminal
  user interface, CSV logging, and everything that computes with
  floating-point values (voltage and power conversion, statistics, axis
  scaling).
- `tests/` exercises the library.
