# oxidhome_core

The control plane of the OxidHome home-automation hub: who may call what over HTTP, Connect and
MCP, what is asked of the stores, what is recorded in the audit ledger, and what is answered.

- `src/` holds the rules, verified with Verus. Nothing in it reads a socket, a file or a clock.
  - `auth`, `auth/policy`: callers, their scopes and the constraints of their tokens.
  - `api/auth`: the way of a request through authentication and the ledger.
  - `api/operations`, `api/scopes`: what each operation asks for.
  - `api/server`, `api/queries`, `api/paging`, `api/plugins`, `api/wire`, `api/reply`: the HTTP
    endpoints.
  - `api/walk`, `api/audit_walk`, `api/event_walk`: what the pages of the device state, of the
    ledger and of the event history come to together.
  - `api/ui`, `api/ui_ticket`, `api/encode`: plugin pages and the tickets that open them.
  - `api/connect_rpc`: the RPC surface.
  - `api/mcp`: sessions, rate limits, prompts, resources and tools for agents.
  - `exclusive_lock`: one process per state directory.
  - `json`, `json_value`, `overrides`, `order`, `text`, `text_map`: what the rest is made of.
- `app/` is ordinary Rust around it: sockets, threads, timers, and the `Host` trait through which
  the control plane reaches the engine. The host also registers the generated Connect services,
  which call `app/connect_services.rs`.
- `tests/` run the library.

Steps that need the outside are written as machines: a step takes what happened and returns what
to do next, and `app/` does it.
