# ofx_registry

The core of an OpenFX plugin library, verified with Verus.

- `src/types.rs`: the values that host and plugins exchange.
- `src/registry.rs`: the registered plugins, and the state that the registry's
  lock guards.
- `src/gate.rs`: the dispatch gate, which lets one thread at a time into a
  plugin, as often as it asks.
- `src/host_call.rs`: the course of a call that the host makes, as a function
  from state and event to next state and action.
- `src/host_call_laws.rs`: what holds of every such call.
- `src/traffic.rs`: what holds of all the calls on one plugin together.
- `src/suites.rs`: the suites that the host hands to its plugins.
- `app/`: the C interface, the locks and the threads around the library.
