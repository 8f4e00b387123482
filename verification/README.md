# subgraph_debug

A debugging harness that runs one mock Ethereum block through the
`process_block` step of a subgraph indexer.

- `src/` (verified with Verus):
  - `eth`, `block`: the mock block, built from `ethereum-types` through `ethabi`;
  - `config`: the deployment, chain, template and metric names the harness configures;
  - `metrics`: the subgraph instance histogram, built with `prometheus`;
  - `harness`: the order of the harness's fallible steps and how a run ends.
- `app/`: the harness itself, which turns the verified values into the
  indexer's chain, stores, adapters and metrics, takes the steps and asks
  the library after each one whether to go on.
- `tests/`: tests of the library.
