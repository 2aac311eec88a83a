# ntfy plugin core

The verified core of the ntfy server plugin, written in Verus.

- `src/lifecycle.rs` — the lifecycle tools (`ntfy.install`, `ntfy.upgrade`,
  `ntfy.backup`, `ntfy.restore`) as one state machine: each step takes what
  came of the outside work (a command's outcome, a path check) and decides the
  next stage and the next piece of outside work, down to the tool's output or
  its error. Backup destinations are resolved against the working directory,
  so the archive reported is absolute; archive names carry the UTC stamp
  (`YYYYMMDD-HHMMSS`) of the system clock's reading. Laws: progress and termination, failure propagation,
  absolute archives, and the backup-then-restore round trip (proved over the
  commands issued: the archive `tar` writes is the one reported and the one a
  restore extracts; what `tar` does to the files is outside the proof).
- `src/routing.rs` — routing of invoked tool names: backend callbacks
  `notify.__backend.<endpoint>.<op>`, the plugin's own `ntfy.*` tools, and the
  error texts the host receives.
- `src/endpoints.rs` — endpoint rows, the backends advertised for the enabled
  ones, and the client configuration built for an endpoint. Law: every
  advertised backend is routed back to its own endpoint.
- `src/text.rs` — the string operations the above rely on, stated over
  character sequences.
- `app/` — the process around the library: running commands, the endpoint
  database, the notification client, JSON and the plugin host interfaces.
