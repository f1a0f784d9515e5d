# mesh_adv_write

The write job of the advanced mesh render feature, as a verified planner.

For each batch of submit nodes and each submit node, the job decides what to
record on the command buffer: the pipeline (and its vertex layout), the
per-view, per-batch, SSAO and material descriptor sets, the index and vertex
buffers, and the indexed indirect draws with their byte offsets. In `src/`
these decisions are functions from plain values to a plan, a sequence of
`WriteCommand`s, with exact contracts:

- `src/phases.rs`: the registered phase indices and what each phase binds;
- `src/commands.rs`: the commands and the indirect-buffer stride;
- `src/write_job.rs`: the job and its plans;
- `src/binding_state.rs`: a model of what is bound after a plan, and the
  laws that every draw finds its batch's pipeline, sets and buffers bound.

`app/` records the plans on a rafx command buffer and holds the GPU vertex
formats (floating point) and their layouts.
