# ai_agents

The RegicideOS AI agents: BtrMind, which watches a BTRFS filesystem and frees space,
and PortCL, which watches Portage and tunes how packages are built, together with a
small inference server.

`src/` is the library, verified with Verus. It holds what the agents decide and read:
configurations and their checks, the parsers of the tools' output (`df`, `btrfs`,
`equery`, `emerge`, `rc-status`, `systemctl`), the action executors and their limits,
the safety checks and snapshots, the event store and its statistics, the error kinds,
and the formatting of sizes and durations. Floating-point settings are held as the bits
of their `f64` values and compared exactly as `f64` compares them (`binary64.rs`).
Calls into other crates (random numbers, UUIDs, the clock, file existence) go through
the few trusted functions of `platform.rs` and `text.rs`.

`app/` is the program around it: the command lines, the commands that are run, file
and network I/O, the configuration files, and the floating-point learning code.

`tests/` runs the library on concrete inputs.
