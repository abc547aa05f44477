# gdble

The verified core of a Bluetooth Low Energy plugin for the Godot engine.

`src/` holds the logic, proved with Verus:

- `device` — the state machine of one peripheral: connection state, the
  services found by discovery with a characteristic cache, subscriptions and
  the notification dispatcher. Script calls give a `DeviceAction`; results of
  background work come back through `on_...` methods and give the event to
  report. `device_laws` states what holds across operations.
- `scanner` — the state machine of a scan: devices keyed by canonical
  address, the addresses already forwarded, the event count and the stop
  request. `scanner_laws` states what holds across operations.
- `pairing` — pairing state and the decisions of the pairing and unpairing
  procedures.
- `error`, `types`, `characteristic`, `dictionary` — errors with their
  messages and codes, device records and events, and their dictionary form.
- `address`, `text`, `string_set` — canonical addresses, address parsing and
  the text operations beneath them.

`app/` is the engine extension around it: the engine classes, the
asynchronous Bluetooth work on a Tokio runtime, logging, and the conversion
of the library's values to engine values.
