# near_node_config

Configuration of a NEAR node, verified with Verus.

- `src/config_json.rs`: the network section of the JSON config file and the
  defaults that fill in the fields a file leaves out; `Config::default` is
  proved to agree with those defaults field by field.
- `src/duration.rs`: spans of time as (seconds, nanoseconds), built through
  the `time` crate.
- `src/vm.rs`: the runtime configuration (VM kind, features, limits), with
  `make_free` and `enable_all_features` and the laws relating them.
- `src/metrics.rs`: label schemas and the label values under which network
  metrics are recorded.
- `app/`: the serde/borsh/strum forms of the types, the prometheus metrics
  themselves, and what depends on the build target or on std's hasher.
- `tests/`: tests of the library on concrete values.
