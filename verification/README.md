# bpfagent

An eBPF program manager that exports kernel and socket measurements as
Prometheus metrics. This crate is the verified core of the agent; `app/`
wraps it into the daemon (command line, configuration file, eBPF loading,
HTTP server, event loop).

## Layout

- `src/kfree_skb_common.rs`: the kernel's packet drop reasons, their codes
  and names.
- `src/sca_common.rs`, `src/irss_common.rs`: definitions shared by the eBPF
  programs and userspace (hop endpoints, the socket data flow, filters).
- `src/programs/`: userspace logic of the programs
  - `kfree_skb.rs`: per-tick drop deltas, the 10-second rate window, drop
    tables and their Prometheus exposition;
  - `sca.rs`, `sca/helpers.rs`: `ss -xpH` parsing, hop endpoint discovery,
    freshness tracking of per-PID latency samples and the display tick;
  - `irss.rs`: accumulator deltas, per-tick averages and the program's
    settings.
- `src/probes/`: the decisions of the kernel-side programs (map keys,
  latency arithmetic, moving-average windows, header layout).
- `src/config.rs`, `src/cli.rs`, `src/daemon.rs`, `src/metrics.rs`:
  configuration, command-line and daemon-mode decisions, HTTP routing and
  response framing.
- `src/text.rs`, `src/seqs.rs`: character and sequence helpers with their
  mathematical definitions.

Every function in `src/` carries a contract proved by Verus, except three
small trusted wrappers whose contracts are assumed: `string_from_chars`
(building a `String` from characters), `elapsed_nanos`
(`Instant::duration_since`) and `table_setting` (a TOML table lookup).
`tests/` exercises the library on concrete values.
