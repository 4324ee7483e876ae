# window_sensor

The logic of a battery-powered window sensor, written and proved in Verus.

The sensor tells by a magnet on the sash whether a window is closed, tilted or open. It advertises
that, the air around it and its own state over Bluetooth in the BTHome format, and it is set up by
knocking, turning and moving the window.

- `src/` is the library. Everything that the sensor decides stands there, with its contract:
  the detectors (`gesture`, `mems`, `mems_button`, `setup`), the battery estimate (`battery`), the
  payloads (`bthome`, `telemetry`, `advertising`), updates (`ota`, `ota_boot`, `partition`), the
  stored settings (`settings`) and what each task does next (`tasks`). Laws that relate several
  functions are public proof functions at the end of each module.
- `tests/` runs the library on concrete values.
- `app/` is the firmware around it: drivers, timers, flash and radio. Field strengths are
  floating-point numbers; they are computed and compared there, and the library works on the
  outcome.

One item is trusted: the conversion of raw air values by the `sht4x` crate, in `src/tasks/air.rs`.
