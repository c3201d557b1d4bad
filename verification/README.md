# co2_sensor

Firmware logic of a CO2 monitor (SCD4x sensor, SSD1306 OLED), written in Verus
and proved against its contracts.

- `src/` — the verified library:
  - `air_quality` — classification of a reading into Good / Ventilate / Poor;
  - `history` — the downsampled CO2 history (time buckets closed into their
    mean, kept in a `heapless::HistoryBuffer`), its average and trend;
  - `display` — layout of the measurement screen, placement of the history
    sparkline, decimal writing of the value, the start-up screens;
    `display::boot_animation` — the boot spinner;
  - `sensor` — the sensor task as a state machine, and the generator of
    synthetic readings;
  - `state`, `config` — the phases published by the sensor task and the
    configured thresholds.
- `app/` — the ESP32-C3 program: tasks, I2C, drawing with embedded-graphics,
  and what involves floats (temperature, humidity, temperature offset).
- `tests/` — tests of the library.
