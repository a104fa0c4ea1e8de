# Are You Healthy — verified core

A health-check web service: HTTP probes configured through a web UI, with
Feishu and PushPlus alerts, history kept in SQLite.

- `src/` is the library, verified with Verus: checkpoint rules, probe
  verdicts and the request/response texts shown to users, scheduling and
  alert decisions (first failure, cooldown, recovery), configuration bounds,
  history retention, request validation of the API, the daily "alive"
  message, and the text helpers they rest on.
- `app/` is the program around it: the axum server, SQLite access, outgoing
  HTTP requests, timers and configuration loading.
- `tests/` run the library on concrete values.
