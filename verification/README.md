# isochron

The logic of a watch cleaning machine controller and its display module,
written in Verus: every function in `src/` carries a contract. Verus proves
them all except those of the small wrappers that call `heapless` and
`core::str` (marked `#[verifier::external_body]`), whose contracts are
trusted as those crates document them.

- `state/` - the machine's state machine and its events
- `scheduler/` - profiles split into segments, and program execution
- `config/` - machine configuration, lookups by name, persisted PID
  calibration with its CRC-32
- `motion/` - speed ramps and position commands
- `safety/` - temperature, stall and link monitoring
- `heater/` - Q16.16 arithmetic, bang-bang and PID control, relay autotune
- `motor/`, `stepper/` - DC and AC motor drivers, TMC2209 UART datagrams
- `sensor/` - NTC thermistor conversion
- `hal/` - pin, UART, I2C, SPI and flash definitions; GPIO and ADC
  allocation; the RP2040 pin bank and step-generator position tracking
- `display/` - screen buffers, the SH1106 frame buffer, the display
  module's command handling and rotary encoder decoding
- `bounded.rs` - the `heapless` strings and vectors the data lives in, with
  the contracts of the calls made on them

`app/` holds what cannot be verified: serde forms of the stored data, flash
storage through `sequential-storage`, and the OLED's and inputs' async I/O.
