# uecm

The verified core of `uecm-cli`, a command-line tool that manages a cluster of
Unreal Engine build machines: its inventory of machines, credentials, engine
installs, GPUs, projects and their locations, SMB shares, scan runs, INI
findings and health results, Zen cache endpoints and binary baselines, the command grammar and its
constraints, the stable error codes and exit codes, the credential flags,
the destructive-command gate, the health-check and INI-scan tallies and the
reports of the Zen probe, cache-stats and detect-binary commands.

Every function under `src/` carries a contract. Verus proves all of them
except two small wrappers around outside code (`sha256_digest` over the
`sha2` crate and `push_char` over `String::push`), whose contracts are
trusted.

- `src/grammar.rs`, `src/cli_parse.rs`, `src/args.rs`: the command line,
  parsed into the `Cli` value with the flag constraints enforced.
- `src/store.rs`: the inventory, its invariants, and the snapshot it is
  saved as and read back from (checked for well-formedness on the way in).
- `src/machine.rs`, `src/zen.rs`, `src/ini.rs`, `src/health.rs`,
  `src/ddc.rs`, `src/winrm.rs`, `src/reports.rs`, `src/credential_args.rs`,
  `src/health_run.rs`, `src/ini_scan.rs`, `src/refresh.rs`,
  `src/distribute.rs`, `src/projects.rs`: the commands'
  decisions, each from plain values to plain values.
- `src/output.rs`, `src/error.rs`, `src/dispatch.rs`, `src/manifest.rs`:
  error codes, exit codes and the registry of operations.
- `src/text.rs`: the string helpers the rest is written with.

`app/` is the executable around the library: argument intake, JSON and
human output, reading a password from stdin, saving the inventory as a JSON
document at the database path, the network probe, and the drivers that feed
remote answers to the library's step functions. This build has no Windows
remote-management backend, so those remote steps answer with an error that
says so.
`tests/` runs the library on concrete values.
