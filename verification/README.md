# gpu_plugin

The verified core of a Minik8s plugin that runs CUDA jobs on a remote Slurm
cluster. A controller starts one runner pod per `GPUJob`; the runner uploads
the job's sources over SSH, submits a batch script with `sbatch`, polls
`squeue` and `sacct`, fetches the outputs and writes the status back.

Layout:

- `src/` — the library, verified with Verus:
  - `api.rs`: the resources, their identity and validation;
  - `slurm.rs`: Slurm statuses, the batch script, parsing Slurm's output;
  - `workspace.rs`: workspace paths, sanitized names, safe child paths, file modes;
  - `ssh.rs`: SSH options and remote commands, the plan for collecting outputs;
  - `status.rs`: job status updates and the result config map;
  - `controller.rs`: the runner pod and the reconciliation's decisions;
  - `runner.rs`: the run of one job as a state machine;
  - `strmap.rs`, `order.rs`, `text.rs`: string maps, string order and text helpers;
  - `laws.rs`: properties that span functions.
- `app/` — the two programs around it (controller and runner): API access,
  files, processes, timers.
- `tests/` — tests of the library on concrete values.
