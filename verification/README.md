# nettest

A measurement client for the RMBT protocol, split into a verified library
and the program around it.

`src/` is the library, with its contracts and proofs:

- `phase.rs`: the protocol phases, the stages they group into, each stage's
  start phase, completed phase and timeout, and the labels under which they
  are reported.
- `state.rs`: the data of one measurement connection and the driver of a
  stage run (`PhaseRun`): from the connection's state and what the poll loop
  reports, the next thing to do. Also the throttle for progress reports.
- `runner.rs`: the schedule each measurement thread follows, the checkpoints
  at which all threads meet, and the summary of a finished run.
- `progress.rs`: per-thread snapshots and the progress reports built from
  them.
- `client.rs`, `samples.rs`: the configuration, the per-thread results and
  the byte totals over measurement samples.
- `cli.rs`: the command-line mode, the help flag, the argument list that
  arrives as JSON (through the C interface, as bytes), and the JSON replies
  of the C interface.
- `json.rs`: escaping a message for a JSON string, with the proof that the
  escaped text is a well-formed JSON string body.

`app/` is the program: the poll loop over `mio`, the threads, the C interface,
and the JSON form of the progress reports. The transports, protocol handlers,
argument parser, speed calculator, printers, result store and server are
reached through the `Engine` trait in `app/engine.rs`, which this tree does
not implement: a build supplies one with `engine::link`.
