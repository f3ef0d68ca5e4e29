# satellite-gcs-rts

A soft real-time simulation of a satellite and its ground control station, linked by TCP. The
rules of both sides are a Verus library; the program around it keeps time, moves bytes and draws.

## Layout

- `src/shared/`: packets and their codes, frames, limits, the live log, latency histograms.
- `src/satellite/`: the sensor buffer, the sensors and their jitter, the rate-monotonic scheduler
  (with a proof that its task set is schedulable), the downlink window, the cache of sent packets,
  the command interlock, the fault engine, the dashboard.
- `src/ground/`: telemetry reception and loss of contact, the command queue and uplink, fault
  management and interlock, load and reports, the watchdog, the dashboard.
- `tests/`: the library from outside.
- `app/`: the program, `satellite-gcs-rts ground` and `satellite-gcs-rts satellite`.

Functions named `law_*` state what holds of several operations together.

## Conventions

- Times are numbers that the caller reads off a clock: microseconds or nanoseconds since the start
  of the simulation. Packets are stamped with that time as well. Started with the same
  `--sim-start-us`, both processes count from one moment, and the latency of a packet is the time
  that it was on its way.
- A quotient is a `Ratio` of two integers; the program divides where it displays one.
- A reading travels as the bits of its floating-point number.
- The `hdrhistogram` crate keeps the samples; what is believed of it stands in
  `src/shared/histogram.rs`.
