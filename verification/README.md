# modbus485

A debugger for Modbus RTU on RS485 lines: a window to send raw or Modbus
requests and watch the line, and a daemon that drives the serial port.

- `src/` is the verified library:
  - `crc`: the CRC-16/MODBUS checksum; a frame followed by its checksum
    checks to zero, every single-bit error is detected, and for one length
    the checksum is affine over GF(2);
  - `hexfmt`: hex digits, decoding and encoding (through the `hex` crate),
    spacing in pairs;
  - `text`: appending characters and decimal numbers to strings;
  - `modbus`: reading a captured frame as a Modbus request or response
    (through `modbus-core`) and describing it;
  - `settings`: serial line settings as plain values;
  - `serial_interface`: the daemon's state and every decision its loops take;
  - `gui`: the panel's state, its messages, what it sends and what it shows.
- `app/` runs the program: the serial port, the channels, the clock and the
  iced window, around the library.
- `tests/` exercises the library on concrete values.
