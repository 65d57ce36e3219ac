# rhiza_ha

Ownership of a high-availability database node, and the replacement of a
cluster's membership by a live successor, as verified state machines.

A node is prepared (bootstrap, rejoin or disaster restore), its recorder
serves, its runtime is opened, its service is activated, and it serves until
it fails or is shut down under one absolute deadline. A live successor stages
a copy of its predecessor's state, follows its certified log, takes over at
the predecessor's Stop, and hands its one service listener to the node that it
starts.

## Layout

- `src/` decides. Each part of the lifecycle is a function from a state and
  what happened to the next state and what is to be done, with a contract that
  says exactly which. Laws over single steps and whole runs stand beside them,
  in the same module or in one whose name ends in `_laws`.
- `app/` acts. It runs the machines on tokio, reads and writes files, accepts
  connections, and speaks to the database, the recorders and the checkpoint
  archive through one trait.
- `tests/` holds scenarios on concrete values.

Time is counted in nanoseconds since the process began. A deadline is always
absolute: whoever waits under a requested shutdown reuses its deadline and
never extends it. Only a step of the start that fails (opening the runtime,
building the router, activating the listener, starting the service) drains
under a default deadline of its own, counted from the failure.
