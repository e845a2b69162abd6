# robustmq_handlers

The decisions of an MQTT broker's packet handlers, and of the reporting of a
journal server node to its placement center, as a library verified with Verus.

Every handler is a state machine. One call of a handler takes its state and an
event, and gives the next state with an action for the outside world, or the
reply that ends the request. Its contract says exactly which, and public `law_`
lemmas say what holds of whole runs.

- `src/machine.rs`: steps and runs of state machines.
- `src/broker/`: one module for each packet, with the types they share.
- `src/journal/`: registration, signs of life and the loops around them.
- `app/`: asynchronous drivers that perform the actions.
- `tests/`: the handlers on concrete values.
