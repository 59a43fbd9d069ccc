# rigorix_mcp

The Rigorix MCP gateway: a JSON-RPC 2.0 server over stdio that exposes plan
execution, template and audit tools to AI coding assistants, with its rules
specified and proved in Verus.

## Layout

- `src/` — the verified library.
  - `json.rs` — the JSON document model every message and result is built from.
  - `text.rs`, `platform.rs` — character-level text operations; identifiers
    and the clock, behind specified calls into `uuid` and `chrono`.
  - `mcp_server/` — server and session lifecycle, the tool registry, the
    JSON-RPC message model, the session repository, the application service
    and the method handlers.
  - `execution_tools/` — plans, steps, execution results, the execution
    repository, the engine facade's mappings and the execution tool handlers.
  - `template_tools/` — validated template names, templates and summaries,
    listing filters, the template store's rules and the template handlers.
  - `host/` — tool routing, the error taxonomy and its JSON-RPC form,
    approval identity, resource URIs and start-up settings.
  - `gateway.rs` — message dispatch and the result documents of each method.
- `tests/` — tests of the library on concrete values.
- `app/` — the program: the stdio loop, serialisation, the template files on
  disk and the tool descriptors.
