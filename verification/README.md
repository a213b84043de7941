# aio_pulse

Monitoring and LCD control for the NZXT Kraken liquid coolers, with the decision logic
and the byte-level protocols proved correct in Verus.

## Layout

- `src/` — the verified library.
  - `nzxt/lcd.rs` — infographic rotation, the 5×7 bitmap font, the RGBA framebuffer and its
    drawing operations (each stated pixel by pixel), and the simulated display.
  - `nzxt/transfer.rs` — RGB565 conversion, the bulk-transfer header, the HID control reports
    and the link decisions (reconnect timing, doubled first frame).
  - `nzxt/kraken.rs` — device identification, firmware-version and status-report parsing.
  - `app/scheduler.rs` — when the LCD worker renders, and which infographic.
  - `monitoring/` — CPU time deltas, GPU selection, sensor units.
  - `windows/` — window-message dispatch, notification-icon tooltip encoding, DPI defaults.
  - `hardware/`, `config/`, `rendering/` — device records, settings, typography.
- `tests/` — tests run against the compiled library.
- `app/` — the program: HID access through `hidapi`, settings files through `serde_json`,
  worker threads, logging, and the floating-point sensor and gauge computations.

Verification: every function in `src/` carries a contract; proof functions named `lemma_*`
state the properties that relate several operations (for example that the rotation
alternates and that a rotation restarts its timer).

## What the program does not do

The program in `app/` is a console process: it runs the hardware, monitoring and LCD workers
until standard input closes. It has no desktop window and no notification-area icon (the
library holds their decisions: message dispatch, texts, tooltip encoding, typography). It does
not open the LCD's WinUSB bulk pipe, so `KrakenLcd::connect` always reports an error and frames
only reach the HID control interface; it does not load NVML (GPU readings are simulated) and
does not call `GetSystemTimes` (CPU usage is simulated). The library's `CpuMonitor`,
`select_gpu` and `bulk_writes` are ready for those sources.
