# rsmf

Resonant Stratified Manifold Flow (RSMF) keeps each layer of a large model
as a truncated spectral decomposition ("stratum") and trains one layer at a
time, so that only one layer's working set is resident in GPU memory.

This crate splits RSMF in two:

- `src/` — the verified library (Verus). It holds the integer decisions of
  RSMF, each with a contract proved by Verus:
  - `model_config`: dense and MoE architecture descriptors, their FP16
    footprint and the recommended sharding strategy;
  - `config`: retained rank, inner-iteration cap and the per-stratum VRAM
    working set;
  - `topology`: device topologies, uniform pipeline layouts, hosting checks
    and communication cost;
  - `budget`: the binary search for the largest rank that fits a budget and
    the per-device VRAM allocator;
  - `shard`: the plan that splits a stratum's components into equal shards,
    one per device;
  - `ternary`: ternary signs, the storage of ternary adapters and the
    IEEE 754 half-precision bit codec;
  - `params`: parameter accounting of dense and MoE models;
  - `memory`: memory footprints of strata, resonant tensors, expert groups
    and the active part of an MoE model;
  - `registry`: the identifiers under which a session keeps its models;
  - `commands`: the Studio budget-planning command and its values.
- `app/` — ordinary Rust around the library: the floating-point numerics
  over `ndarray` (strata, randomized SVD, resonant training, MoE routing and
  coherence, ternary adapter arithmetic), serializable copies of the
  library's values, and the Studio commands that hold models in shared state.

`tests/` exercises the library from outside.
