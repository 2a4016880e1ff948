//! The logic of the Minik8s GPU plugin, verified with Verus: the `GPUJob`
//! and `HPCCredential` resources and their validation, the Slurm batch
//! script and the parsing of `sbatch`, `squeue` and `sacct` output, the job
//! workspace paths, the SSH commands and the collection plan for outputs,
//! the job status updates, the controller's reconciliation and the runner's
//! run of a job as decision functions, and the laws that tie them together.


pub mod api;
pub mod controller;
pub mod laws;
pub mod order;
pub mod runner;
pub mod slurm;
pub mod ssh;
pub mod status;
pub mod strmap;
pub mod text;
pub mod workspace;

