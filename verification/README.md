# epd_waveshare (verified)

Drivers for the Waveshare 2.13" V4 (SSD1680) and 3.52" (UC8253) e-paper
panels, written in Verus.

- `src/` is the verified library. Every driver operation appends a *plan*
  (`interface::Op`: DC/RST/power levels, single-byte SPI writes, delays,
  busy waits, driver-state steps) to a `Vec`; the contracts state each plan
  exactly. `src/*/laws.rs` and `src/interface.rs` hold the proved laws.
- `app/` runs the plans on `embedded-hal` hardware: it performs the steps
  in order, stops at the first failed SPI write, and hands driver-state
  steps back to the library (`Epd3in52::apply`).
- The 3.52" waveform tables are given to the driver as `LutTables` values.
