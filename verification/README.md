# Yandere Companion

A macOS menu-bar companion that watches the recent desktop activity recorded
by screenpipe, decides with a language model when to speak up, keeps a daily
sleep rhythm and writes a diary every evening.

## Layout

- `src/` — the library, verified with Verus: the scheduler and its decisions,
  the sleep plan, the notification limits, the provider fallback chains and the
  circuit breaker, prompt rendering, reading the models' replies, summarising
  recorder searches, the phone receiver's rules, settings upgrades, and the
  text handling they rest on. Calls into `chrono`, `uuid`, `reqwest::Url` and
  `std` that the logic needs stand behind small trusted wrappers whose
  contracts say what the library relies on.
- `app/` — the application around it: the Tauri window and tray, HTTP
  requests, the SQLite store, files, processes and the phone's HTTP receiver.
  It hands the library plain values and acts on what the library decides.
- `tests/` — tests of the library on concrete values.
