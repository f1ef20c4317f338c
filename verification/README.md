# bell_casting

Backend of a simulation system for ancient bell casting and bell-sound
propagation.

- `src/` is the library. It holds the decisions the services make on keys,
  categories and configuration values, each with a contract: the compute-pool
  configuration, the service configuration read from environment values, the
  casting-method catalogue and the selection of methods and alloys for a
  comparison, the material suited to a kind of bell, the grading of casting
  risk, the routing of bus messages between services, the storage statements,
  the tower surfaces and advice, and the virtual-strike choices and texts.
- `app/` is the program around it: the HTTP API, ClickHouse storage, MQTT
  alerts, Prometheus metrics, the message-bus services, and the numerical
  simulations, which work in floating point.
- `tests/` exercises the library.
