# epics_ca

Client of the EPICS Channel Access protocol, with its decisions proved in Verus.

- `src/` is the verified library: status codes and errors (`caerr`, `error`), identifiers of
  field and request types, alarms, timestamps and fixed-size C strings (`types`), request
  sizes (`db_access`), requests and the checks of replies (`request`, `channel`), the state of
  reads and subscriptions (`get`, `subscribe`), and the steps that switch a thread between
  contexts (`context`). Each public function states its result in its contract; the laws that
  relate functions are public proof functions next to them.
- `app/` drives the C library (`libca`) with these decisions: contexts, channels, and reads,
  writes and subscriptions as futures and streams. Floating-point channels live there too.
- `tests/` runs the library on concrete values.
