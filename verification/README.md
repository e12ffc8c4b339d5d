# icenet_agent

The decision logic of an endpoint detection and response agent, written in
Verus and proved against its contracts.

`src/` is the library:

- `models` — events, detections, configuration and response actions.
- `config` — the configuration file's contents, defaults and format choice.
- `detection` — the detection engine (signature and behavioral rules).
- `processor` — counting, analysing and batching events; no event is lost.
- `file`, `process`, `network` — the monitors' rules: exclusions, severities,
  snapshot comparison and connection table parsing.
- `response` — the action a threat calls for, quarantine naming, firewall
  commands.
- `protocol` — message envelopes, server endpoints, reply statuses.
- `stamp`, `digest`, `text`, `parse` — event identity (random ids, the
  clock), hashing, string and number handling.
- `trusted` — the calls into getrandom, uuid, chrono, sha2, whoami and
  `std::time`, with the contracts believed of them. Two more trusted std
  calls sit in `text`: `String::push` and `str::to_lowercase`.

`app/` is the program around it: command line, logging, configuration files,
the monitors' I/O loops, the HTTP client, carrying out responses (including
the file system paths of quarantined files), and service installation. `tests/` runs the library on concrete inputs.
