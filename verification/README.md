# runtime-service

A code-execution service: it runs Python snippets in a locked-down container, keeps a
table of jobs with their output, streams output lines to listeners, reports counters and
notifies a webhook when a job ends. An API gateway in front of it forwards the public
routes and relays job log WebSockets.

`src/` is the library, verified with Verus:

- `executor` — the container command line, the sandbox settings, the outcome of a run and
  the messages streamed while it runs;
- `service` — request checks and the handling of synchronous, asynchronous, streamed and
  cancelled jobs on the service state;
- `jobs` — the job table (status, list, logs, summary, purge) and output tails;
- `metrics` — job and webhook counters;
- `webhook` — the notice body, its HMAC signature and the retry schedule;
- `gateway` — the gateway's forwarding rules; `auth` — the API keys and which requests pass;
- `text` — string helpers (decimal numbers, parsing, whitespace, lines);
- `outside` — the calls into `dashmap`, `serde_json`, `hmac`/`sha2`, `hex` and
  `serde_urlencoded`, each behind a trusted contract.

`app/` holds the servers, processes and network calls. Its program starts the runtime
service by default; given the argument `gateway` it starts the gateway, and given `demo` a
small Tokio walkthrough.
