# psyche_client

The decisions a training node makes when it joins a run, verified with Verus.

- `src/init.rs`: the checks made before any work (device, model, checkpoint),
  the start of the three branches, and how their outcomes combine into
  trainers, with the order in which failures are reported.
- `src/data.rs`: the data provider planner (server, generated, HTTP, weighted
  HTTP, preprocessed local or downloaded datasets).
- `src/model_load.rs`: the model loader (local or downloaded repository,
  peer-to-peer checkpoint, dummy model), the native replicas or Python
  model to load, and the configuration to publish.
- `src/grid.rs`: the data-parallel by tensor-parallel grid of replicas and
  their grouping into trainers.
- `src/files.rs`: the repository files kept beside every checkpoint.
- `src/wandb.rs`: the metrics run.
- `src/tokenizer.rs`: the dummy model's tokenizer, built through the
  `tokenizers` crate.

Each planner asks its caller for one action at a time and takes the outcome
back; `app/` is the asynchronous caller that performs the actions.
