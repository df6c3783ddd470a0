# devbridge

The logic of DevBridge, a print bridge that takes jobs from an IPP virtual
printer on a Windows server and prints them on the printers of remote store
clients, written in Verus with its behaviour stated in contracts and proved.

- `src/` is the verified library: the IPP codec, the print backends' command
  lines, queries, parsers and audit events, the client's job pipeline
  decisions (download check, in-flight guard, completion report, backoff),
  the tray's job tracker, the dashboard API's decisions, configuration
  validation, virtual-printer naming, and the end-to-end suite's checks.
  Public proof functions named `law_*` state properties that span calls.
- `tests/` runs the library on concrete values.
- `app/` is the unverified edge: reading the TOML configuration, the JSON the
  dashboard, tray and WebSocket exchange, and running Ghostscript.
