# rstiny

Board logic of a small ArceOS-based kernel for the OrangePi 5 Plus (RK3588),
verified with Verus.

The library decides; the board drivers act.  Every operation that touches a
register is described by a value (a GPIO bank command, a PMU request, a timer
operation, a GIC step) that the runner in `app/` carries out, and every answer
the hardware gives back is handed to a verified function or state machine.

- `src/gpio.rs`: the GPIO controller front end (bank checks, absolute pin
  numbering, version check).
- `src/led.rs`: the LED programs and a model of the pins, with the proof that
  each program leaves the LEDs it drives off: driven `Low`, or, after the
  power-off test's read-backs, inputs whose latch holds `Low`.
- `src/pmu.rs`: checked power-off of one domain, the system power-off
  sequence (well-formedness, safety, termination and the outcome of whole
  runs proved), the PMU test programs (which switch only AUDIO and SDMMC).
- `src/timer.rs`: the timer delay and free-running blink state machines,
  elapsed-time arithmetic, the timer blink program.
- `src/gicv3.rs`: the GICv3 test suite and its report.
- `app/`: boot entry and the runners that drive the real drivers.
- `tests/`: tests of the library, with simulated hardware where needed.
