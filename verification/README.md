# aether_agent

The decision core of the Aether agent runtime, written in Verus: every
function in `src/` carries a `requires`/`ensures` contract that Verus
proves.

What the library decides:

- **runtime** – sessions and their state machine, intents, actions and
  their risk, capability validation, approvals, the planner, the executor's
  request plans and reply decoding, the host that admits, parks and runs
  actions, audit logging, memory stores and their envelopes, recovery
  policies, and the decoding of language-model replies;
- **retry_policy** – backoff, retry budgets and circuit breakers;
- **device** – device identity, fingerprints, pairing and the registry of
  paired devices;
- **transport** – the registry of pairing transports;
- **background**, **apps**, **agent_core**, **bindings** – proposals,
  time triggers, the small built-in apps and their manifests.

Calls into outside crates (`serde_json`, `uuid`, `sha2`) stand behind
small wrappers in `src/json.rs`, `src/ids.rs` and
`src/device/fingerprint.rs`; each wrapper's doc comment says what its
contract claims of the crate.

Layout:

- `src/` – the verified library; `src/lib.rs` is the root;
- `tests/` – ordinary Rust tests against the compiled library;
- `app/` – the unverified shell around it: sockets, files, the clock,
  serde encodings and the provider HTTP exchanges.

Left out: the background daemon's `tick` loop, its workflow runner,
`BackgroundState` and its default state, and the application manifest
type. They rest on the sibling crates `aether_core`, `aether_recovery`,
`aether_diagnostics` and `aether_automation`, which are not dependencies
of this crate. The decisions they make stand in `src/` on their own:
`fire_time_triggers`, `select_unplanned` and `workflow_items` in
`src/background.rs`, and `check_manifest_fields` in
`src/apps/manifest.rs`.
