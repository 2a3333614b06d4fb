# input_capture

The backend of an input-capture portal: it keeps capture sessions for a portal frontend and
drives the compositor that owns the input devices.

- `src/` decides. Every function there but the wrappers around zbus carries a contract that
  Verus proves: the life cycle of a session (`session.rs`), the check of pointer barriers
  (`barrier.rs`), what each method of the portal answers and sends to the compositor
  (`portal.rs`, `reply.rs`, `compositor.rs`), and which compositor signals go out to which
  session (`relay.rs`). What holds over any course of events is proved in `laws.rs`. Variants
  and messages of the bus are read through zbus; what is taken on trust of it stands in
  `value.rs` and `wire.rs`.
- `app/` serves the decisions on the bus: connections, objects, the relay task, and whatever
  holds floating-point numbers.
- `tests/` runs the library with real messages of the bus.
