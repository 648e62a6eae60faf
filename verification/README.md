# sfo_kiosk

The operator's clock-set card of the kiosk, and the screen it shows while the
machine restarts, as a library verified with Verus.

- `src/settime.rs`: the card as a state and its transitions: what it says about a
  change of the clock, when its button is live, what a press sends.
- `src/stepper.rs`: the hour and minute controls.
- `src/exchange.rs`: one conversation with the clock service, step by step.
- `src/shutdown.rs`: the restart screen, the marker file and the watch on it.
- `src/text.rs`: decimal numbers, padding, trimming.
- `src/laws.rs`: what holds of the card under any sequence of events.
- `app/`: the GTK widgets, the wall clock, the socket and the file system around
  the library. It needs the GTK 4 development files to build.
