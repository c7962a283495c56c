# bencher

The configuration, server-setup, metric-ingestion and command-line logic of
the Bencher continuous benchmarking service, verified with Verus.

- `src/json.rs`: the configuration and the request and response bodies, as
  plain values.
- `src/config.rs`: the configuration, its defaults and its errors.
- `src/loader.rs`: the order in which the configuration is looked for
  (environment, file, defaults), as a step function with a proof that a
  run follows that order.
- `src/server.rs`: what the API server is started with.
- `src/metrics.rs`: the order in which the metrics of a benchmark are
  stored, as a step function with a proof of that order.
- `src/endpoints.rs`, `src/cli.rs`: what a few endpoints and the
  command-line client compute.
- `src/outside.rs`: the calls into the `uuid` and `url` crates.
- `app/`: JSON (serde), files and environment (tokio, std), the argument
  parser (clap) and HTTP requests (reqwest).
