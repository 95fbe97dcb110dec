# csf-core

The decision logic of CS-Foundry's control plane and node agent, written in
Verus: the functions in `src/` state their behaviour in contracts, and Verus
proves the code against them; the calls into outside crates are declared
with contracts that are trusted.

## Layout

- `src/` — the verified library, one module per concern:
  - text, ordering and number handling: `text`, `order`, `numparse`, `versions`;
  - the node agent: `agent_layout`, `host`, `node`, `vm`, `assignments`,
    `workload_fsm`, `access`, `ticket`;
  - the gateway: `gateway_auth`, `accounts`, `two_factor`, `resources`, `docker_config`,
    `groups`, `proxy`, `router`, `cluster`, `releases`, `rollout`, `settings`,
    `ssh_keys`, `seed`, `marketplace`, and the request and answer shapes of
    its API in `api_types`;
  - the updaters and the failover controller: `flake_update`, `failover`;
  - the calls into the encoding, hashing, signature and key crates, whose
    contracts are trusted: `crypto`, `json`, the TOTP calls of `two_factor`,
    and the string helpers of `text` that call into `std`.
- `tests/` — tests of the library on concrete values.
- `app/` — a small command-line program around the library that does the
  host I/O (state files, `/sys`, `smartctl`, `systemctl`, `sysinfo`).
