# port_model

A verified model of Port's configuration and of its hosted control plane,
written in Verus. Every function in `src/` carries a contract that Verus
proves; `src/laws.rs` states the properties that hold across functions.

## Layout

- `src/model.rs`, `src/views.rs`, `src/named_map.rs`: the configuration
  types, their mathematical views, and a map whose entries stay ordered by
  name.
- `src/validate.rs`, `src/machine_checks.rs`, `src/cluster_checks.rs`,
  `src/config_checks.rs`: configuration validation, each check stated as the
  first failure of an ordered run of checks.
- `src/contracts.rs`, `src/placement.rs`, `src/summary.rs`,
  `src/registration.rs`: the hosted inventory, machine placement and the
  contracts derived from them.
- `src/hosted_state.rs`, `src/registry.rs`: the control plane's durable
  state (registrations, imports, placements) and how it changes.
- `src/routing.rs`, `src/fleet.rs`, `src/localize.rs`, `src/serve.rs`,
  `src/transfer.rs`, `src/route.rs`: which node serves a machine or a
  service, the fleet report, the configuration a node agent runs with,
  authorization, and artifact transfers.
- `src/listing.rs`, `src/machine_requests.rs`, `src/service_stop.rs`,
  `src/service_status.rs`: what the control plane decides for machine
  listings, status and stop requests and for service status, listing and
  stop requests; the calls to node agents are left to the caller, which
  hands their answers back.
- `src/laws.rs`: the cross-function properties.
- `tests/`: tests on concrete values.
- `app/`: reading and writing configuration files as TOML, and what a
  control plane or node agent reads from its host (architecture, clock,
  environment).
