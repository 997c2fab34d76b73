# solinteg_read

Reads a Solinteg hybrid inverter over Modbus TCP, prints the readings and
writes them to InfluxDB.

- `src/` is the verified library (Verus): command-line handling (`cli`), the
  configuration and its redacted dump (`config`), the register plan and the
  decoding of register words (`registers`), decimal rendering (`decimal`), the
  text report and the InfluxDB line protocol (`report`), the InfluxDB write
  request (`influx`), timestamps and line prefixing (`clock`, `text`), and the
  decision of what to do after each poll (`cycle`).
- `app/main.rs` does the I/O: arguments, the configuration file (TOML),
  Modbus, HTTP, the clock, JSON output and printing.
- `tests/` exercises the library.

Register values are kept as integers in the units the inverter counts in
(watts, tenths of a degree, hundredths of a percent, tenths of an ampere);
reports show them divided by the matching power of ten. The battery power
alone is shown as the text of its `f32` kilowatt value, which the program
renders and hands to the library, since that quotient is inexact beyond 2^24 W.
