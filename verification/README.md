# wasmcloud-provider

A kubelet backend that runs wasmCloud workloads: it loads the primary container
of a pod as an actor, registers and configures the capabilities that the actor
claims, and takes all of it down again when the pod stops.

- `src/` is the decision core, verified with Verus. What has to happen on the
  wasmCloud host or on disk is described by a `Script`, an exact sequence of
  actions that ends at the first failure. `src/laws.rs` states what holds of the
  library as a whole.
- `app/` performs the scripts on a `wascc_host::Host` and plugs the core into
  `kubelet`. Besides the crates in `Cargo.toml` it needs `kubelet`, `kube`,
  `wascc-httpsrv` and `wasmcloud-logging`.
- `tests/` runs the core on concrete values, with the real `wascc-host` and
  `oci-distribution` linked.

`darling` and `rmp` are named in `Cargo.toml` only to hold `wascc-host`'s own
dependencies to versions that build together.

`oci-distribution` is what a kubelet container's image is read with: its
`Reference` is the type behind `kubelet::container::Container::image`.

What the proofs rest on: `wascc_host::Actor::from_slice` with its accessors
(`src/actor.rs`), `oci_distribution::Reference` (`src/pod.rs`), and, of the
standard library, the `Debug` format of strings (`src/text.rs`) and `Path::join`
(`src/paths.rs`).
