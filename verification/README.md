# Talia

Talia is a Linux host monitoring agent with a small control server. The agent
samples its host and exports metrics over OTLP; the control server keeps track of
connected agents and hands each the runtime configuration of its host.

- `src/` is the logic of both, in Verus: configuration and its validation, the
  control protocol with its credentials, the collectors, and what becomes of the
  samples. Contracts are stated over mathematical views of the data, and what
  spans several functions is stated in public proof functions whose names start
  with `law_`.
- `tests/` runs the library on concrete values.
- `app/` is the program around it: the command line, files, HTTP and WebSocket
  connections, eBPF programs, and the OTLP exporter.

What the library takes on trust from other crates is declared where it is used:
`src/secret.rs` (`sha2`, `subtle`), `src/headers.rs` (`axum`'s header map),
`src/config/version.rs` (`serde_json`), `src/identity.rs` (`uuid`),
`src/modules/memory.rs` (`rustix`) and `src/text.rs` (`String::push`).

## Running

```sh
export TALIA_CONTROL_TOKEN=replace-with-local-dev-token
export TALIA_ADMIN_TOKEN=replace-with-local-admin-token
talia control --config control.toml
```

```sh
export TALIA_CONTROL_TOKEN=replace-with-local-dev-token
export TALIA_AGENT_CONFIG_TOKEN=replace-with-agent-secret
talia agent --config agent.toml
```

The agent loads compiled eBPF objects from `/usr/lib/talia`, or from the directory
that `TALIA_BPF_DIR` names.
