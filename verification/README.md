# fault_recorder

The services of a fault recorder: they read points from PLCs (S7 over
PROFINET, SLMP), route them through a multi-queue to subscribers, cache the
latest value of each point, keep retained point ids, and serve JDS clients
over TCP.

- `src/` is the library, verified with Verus: the point model, the device
  protocol encoding and point parsing, subscriptions and dispatch, the cache,
  the retained ids, the request handling and the decisions of each service's
  loop (as step functions from state and event to the next action). Calls
  into std and outside crates stand behind small trusted wrappers whose
  contracts say what their documentation promises.
- `tests/` holds the tests of the library.
- `app/` is the program around it: configuration, files, threads and
  channels, signals and floating-point parsing. It runs the multi-queue and
  the cache services (the cache loop through the verified steps) and keeps
  the TCP server's connection table. The loops of the JDS server, of the
  Profinet and SLMP clients and of the API client are not run there: the
  socket, PLC and API layers they need are not part of this project; their
  decisions stand in `src/` as step functions.
