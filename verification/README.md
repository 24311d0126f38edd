# aicore_kernel

The AICore kernel as a verified library: app and capability contracts,
installed component manifests and routing, invocations (in process and as
local component processes), the append-only invocation ledger, instance
runtimes with their message ledgers, lane scheduling, the kernel runtime
binary protocol (`stdio_jsonl`), and the MCP adapter contract types.

- `src/` is the library. Every function there carries a Verus contract and
  is verified; the few calls into `std` and `serde_json` that Verus cannot
  read go through small trusted wrappers whose contracts claim no more than
  the documentation of the called function says. In-process handlers are
  closures called under their own `requires` and `ensures`
  (`KernelHandler::accepts` / `handles`); a handler is registered only where
  it accepts every envelope and route.
- Work that needs the file system, processes, the environment or threads is
  done by the caller. The library says what to do next and takes back what
  happened: a ledgered invocation asks for ledger lines to append and
  component processes to run (`invocation_runtime::session`), and the
  runtime binary client asks for the kernel binary to be run
  (`runtime_binary::client`).
- `app/` is the `aicore-kernel` program (`--status`, `--invoke-stdio-jsonl`)
  and the code that performs that work: appending ledger lines, running
  processes with timeouts, reading manifests and status facts from disk,
  running scheduled work on threads, and the JSON forms of the MCP types.
- `tests/` exercises the library on concrete values.

Verify with `verus` on `src/lib.rs` with `serde` and `serde_json` available.
