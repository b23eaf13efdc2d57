# sigma_instrumentation

Verified core of the Sigma motorcycle instrument cluster, written in Verus.

`src/` holds the logic of the cluster with its contracts and proofs:

- `connectivity` — the Connectivity window: focus model (`Menu`), the rows it
  shows (`build_items`) and every value it renders (`apply`, `ConnView`).
- `dashboard` — speed readout digit cells and the turn-signal blink tick.
- `display` — window presets and the size / fullscreen policy, decided from
  the values of the environment variables.
- `theme` — day / dusk / night display modes and how settings select them.
- `updates` — update-catalog endpoint configuration.
- `nav` — window navigation of the ride screen (panel vs. full-screen).
- `sim` — the phases of the scripted demo ride.
- `telemetry` — the gear indicator label.
- `text` — character-level helpers (trim, ASCII case folding, `u32` parsing).

`tests/` runs the library on concrete values. `app/` is the program around
it: the Slint dashboard bindings, environment reads, the floating-point gauge
geometry and ride physics, the candump replay and the framebuffer dump.
