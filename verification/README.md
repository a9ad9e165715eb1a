# burn_trellis

Sparse-flow inference for image-to-3D generation, with its planning and control
verified in Verus.

- `src/` is the verified library. It holds the rules that decide how a flow
  model runs (chunking, kernel choice, number formats), the steps of attention,
  MLP and transformer blocks, guidance and Euler sampling with its traces, the
  layouts of sparse tensors, telemetry, weight files and their parts, and the
  stages of the pipeline. Tensors and floating-point numbers are type
  parameters; their arithmetic is handed in as functions.
- `app/` holds what works on tensors and files: the transformer with its
  weights on `burn`, JSON forms of configurations, model files on disk and in
  memory, process-wide state, and the functions that a run of the pipeline
  calls.
- `tests/` runs the library on concrete values.

The only code that is trusted rather than proved are the calls into
`burn-store` in `src/weight_store.rs`, which open a safetensors file and rename
its entries.
