# ferroq

A QQ bot gateway: it connects to OneBot v11 backends (Lagrange, NapCat, or
the official HTTP API) and serves their accounts to clients over OneBot v11,
OneBot v12 and Satori, with event deduplication, message history and a
management API.

## Layout

- `src/` — the library, verified with Verus: the JSON model and its compact
  text form, the event and message models, the OneBot v11 / v12 and Satori
  conversions, Satori element parsing, configuration validation, event
  deduplication, request routing, statistics, the storage query planner,
  and the decisions of the backends (among them the supervisor that
  reconnects a lost WebSocket link), protocol servers and management API.
  Laws of the library (JSON read-after-write, the OneBot v11 read/write
  round trip of whole posts, Satori escaping round trip, the Satori element
  round trip, plugin result codes, deduplication over a run of checks,
  routing over any number of registrations, the reconnection of a lost
  backend link) are stated as public proof functions. The routing laws
  speak of the adapters themselves: a request for an account reaches the
  adapter registered for it, and adapters keep the order in which they
  were registered.
- The plugin engine is the one of a build without WebAssembly plugins: it
  loads no plugin and lets every event and API call through.
- `tests/` — tests of the library on concrete values.
- `app/` — the executable: configuration file, HTTP and WebSocket servers,
  backend connections, SQLite storage and logging.
