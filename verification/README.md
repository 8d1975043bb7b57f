# omnifrons-shell

The verified core of the Omnifrons desktop shell: the decisions its IPC
commands make, proved with Verus.

- `src/` — the library. `domain` and `failures` hold the values the shell's
  services hand it (identities, candidates, journal entries, error sets);
  `hex` and `text` render digests and counts; `executable_state` is the
  bounded table of probed executables; `ipc/` holds the wire shapes (`dto`)
  and each command surface's decisions (`commands`, `publication`,
  `guidance`, `recovery`, `wrong_root`, `catalog_repair`).
- `tests/` — the library's tests.
- `app/` — the `serde` forms of the wire shapes, converting one for one to
  and from the library's own types.

Every error a command reports is a fixed catalogue message that names no
path; every adapter launch's wire frames are numbered contiguously with the
terminal `state` frame last; a drop count is never lost; a pending
registration is listed only while the Catalog does not hold it.
