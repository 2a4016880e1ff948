use gpu_plugin::api::{GpuJob, GpuJobPhase, GpuJobSourceFile};
use gpu_plugin::runner::{GpuJobRun, RunAction, RunEvent, RunStep};
use gpu_plugin::slurm::SlurmJobStatus;
use gpu_plugin::ssh::CollectedOutputs;
use gpu_plugin::strmap::StringMap;

fn job() -> GpuJob {
    let mut j = GpuJob::default();
    j.metadata.name = "gpu-matrix".to_string();
    j.metadata.namespace = "default".to_string();
    j.metadata.uid = Some("u7".to_string());
    j.spec.credential_ref.name = "sjtu-hpc".to_string();
    j.spec.slurm.partition = "dgx2".to_string();
    j.spec.slurm.nodes = 1;
    j.spec.slurm.ntasks_per_node = 1;
    j.spec.slurm.cpus_per_task = 1;
    j.spec.slurm.gres = "gpu:1".to_string();
    j.spec.slurm.time = "00:01:00".to_string();
    j.spec.source.files = vec![GpuJobSourceFile { path: "build.sh".to_string(), content: String::new(), mode: None }];
    j.spec.run.command = "./matrix".to_string();
    j
}

fn feed(run: GpuJobRun, event: RunEvent) -> (GpuJobRun, RunAction) {
    assert!(run.accepts(&event), "event {event:?} not accepted at {:?}", run.step_kind());
    run.step(event)
}

fn slurm(state: &str) -> SlurmJobStatus {
    SlurmJobStatus { job_id: "314".to_string(), state: state.to_string(), ..SlurmJobStatus::default() }
}

#[test]
fn dry_run_prints_and_succeeds() {
    let run = GpuJobRun::new(&job(), true, 10);
    let (run, a) = feed(run, RunEvent::Begin);
    assert!(matches!(a, RunAction::SetPhase { phase: GpuJobPhase::Preparing, ref message } if message == "preparing local workspace"));
    let (run, a) = feed(run, RunEvent::Done);
    assert!(matches!(a, RunAction::LoadCredential { ref name } if name == "sjtu-hpc"));
    let (run, a) = feed(run, RunEvent::Done);
    assert!(matches!(a, RunAction::PrepareWorkspace { ref script } if script.starts_with("#!/bin/bash\n")));
    let (run, a) = feed(run, RunEvent::Done);
    assert!(matches!(a, RunAction::PrintScript { .. }));
    let (run, a) = feed(run, RunEvent::Done);
    assert!(matches!(a, RunAction::SetPhase { phase: GpuJobPhase::Succeeded, ref message } if message == "dry-run completed; Slurm script generated"));
    let (run, a) = feed(run, RunEvent::Done);
    assert!(matches!(a, RunAction::Exit { error: None }));
    assert_eq!(run.step_kind(), RunStep::Exited);
}

#[test]
fn full_run_polls_until_the_job_ends() {
    let run = GpuJobRun::new(&job(), false, 7);
    let (run, _) = feed(run, RunEvent::Begin);
    let (run, _) = feed(run, RunEvent::Done);
    let (run, _) = feed(run, RunEvent::Done);
    let (run, a) = feed(run, RunEvent::Done);
    assert!(matches!(a, RunAction::SetPhase { phase: GpuJobPhase::Uploading, ref message } if message == "uploading workspace to HPC"));
    let (run, a) = feed(run, RunEvent::Done);
    assert!(matches!(a, RunAction::CreateRemoteDir { ref remote_dir } if remote_dir == "~/minik8s-gpujobs/default-gpu-matrix-u7"));
    let (run, a) = feed(run, RunEvent::Done);
    assert!(matches!(a, RunAction::UploadWorkspace { .. }));
    let (run, a) = feed(run, RunEvent::Done);
    assert!(matches!(a, RunAction::Submit { ref command } if command == "cd ~/minik8s-gpujobs/default-gpu-matrix-u7 && sbatch job.slurm"));
    let (run, a) = feed(run, RunEvent::CommandOutput("Submitted batch job 314\n".to_string()));
    assert!(matches!(a, RunAction::RecordSubmission { ref job_id, .. } if job_id == "314"));
    let (run, a) = feed(run, RunEvent::Done);
    assert!(matches!(a, RunAction::QueryQueue { ref job_id } if job_id == "314"));
    let (run, a) = feed(run, RunEvent::Queue(Some(slurm("PENDING"))));
    assert!(matches!(a, RunAction::ReportProgress { ref status } if status.state == "PENDING"));
    let (run, a) = feed(run, RunEvent::Done);
    assert!(matches!(a, RunAction::Sleep { seconds: 7 }));
    let (run, a) = feed(run, RunEvent::Done);
    assert!(matches!(a, RunAction::QueryQueue { .. }));
    let (run, a) = feed(run, RunEvent::Queue(None));
    assert!(matches!(a, RunAction::QueryAccounting { ref job_id } if job_id == "314"));
    let (run, a) = feed(run, RunEvent::Accounting(slurm("UNKNOWN")));
    assert!(matches!(a, RunAction::Sleep { seconds: 7 }));
    let (run, _) = feed(run, RunEvent::Done);
    let (run, _) = feed(run, RunEvent::Queue(None));
    let (run, a) = feed(run, RunEvent::Accounting(slurm("OUT_OF_MEMORY")));
    assert!(matches!(a, RunAction::CollectOutputs { ref job_id, .. } if job_id == "314"));
    let mut files = StringMap::new();
    files.insert("slurm-314.out".to_string(), "out".to_string());
    let outputs = CollectedOutputs { files, stdout_tail: "out".to_string(), stderr_tail: "oom".to_string() };
    let (run, a) = feed(run, RunEvent::Collected(outputs));
    match a {
        RunAction::StoreResults { job_id, files } => {
            assert_eq!(job_id, "314");
            assert_eq!(files.get("slurm-314.out").unwrap(), "out");
        }
        other => panic!("unexpected {other:?}"),
    }
    let (run, a) = feed(run, RunEvent::Stored("gpujob-gpu-matrix-result".to_string()));
    match a {
        RunAction::Finish { status, stdout_tail, stderr_tail, result_config_map } => {
            assert_eq!(status.state, "OUT_OF_MEMORY");
            assert_eq!(status.phase(), GpuJobPhase::Failed);
            assert_eq!(stdout_tail, "out");
            assert_eq!(stderr_tail, "oom");
            assert_eq!(result_config_map, "gpujob-gpu-matrix-result");
        }
        other => panic!("unexpected {other:?}"),
    }
    let (run, a) = feed(run, RunEvent::Done);
    assert!(matches!(a, RunAction::Exit { error: None }));
    assert_eq!(run.step_kind(), RunStep::Exited);
}

#[test]
fn unparsable_sbatch_output_fails_the_run() {
    let mut run = GpuJobRun::new(&job(), false, 1);
    let mut event = RunEvent::Begin;
    loop {
        let (next, a) = feed(run, event);
        run = next;
        if matches!(a, RunAction::Submit { .. }) {
            break;
        }
        event = RunEvent::Done;
    }
    let (run, a) = feed(run, RunEvent::CommandOutput("sbatch: error: bad".to_string()));
    match a {
        RunAction::ReportFailure { reason, message } => {
            assert_eq!(reason, "RunnerFailed");
            assert_eq!(message, "failed to parse sbatch output: sbatch: error: bad");
        }
        other => panic!("unexpected {other:?}"),
    }
    let (run, a) = feed(run, RunEvent::Done);
    assert!(matches!(a, RunAction::Exit { error: Some(ref e) } if e == "failed to parse sbatch output: sbatch: error: bad"));
    let (_, a) = feed(run, RunEvent::Done);
    assert!(matches!(a, RunAction::Exit { error: Some(_) }));
}

#[test]
fn failures_carry_their_context() {
    let run = GpuJobRun::new(&job(), false, 1);
    let (run, _) = feed(run, RunEvent::Begin);
    let (run, _) = feed(run, RunEvent::Done);
    let (run, a) = feed(run, RunEvent::Failed("not found".to_string()));
    assert!(matches!(a, RunAction::ReportFailure { ref message, .. } if message == "failed to read HPCCredential: not found"));
    let (_, a) = feed(run, RunEvent::Failed("ignored".to_string()));
    assert!(matches!(a, RunAction::Exit { error: Some(ref e) } if e == "failed to read HPCCredential: not found"));

    let mut run = GpuJobRun::new(&job(), false, 1);
    let mut event = RunEvent::Begin;
    loop {
        let (next, a) = feed(run, event);
        run = next;
        if matches!(a, RunAction::Submit { .. }) {
            break;
        }
        event = RunEvent::Done;
    }
    let (_, a) = feed(run, RunEvent::Failed("ssh exited with 255".to_string()));
    assert!(matches!(a, RunAction::ReportFailure { ref message, .. } if message == "sbatch failed: ssh exited with 255"));

    let run = GpuJobRun::new(&job(), false, 1);
    let (_, a) = feed(run, RunEvent::Failed("api down".to_string()));
    assert!(matches!(a, RunAction::ReportFailure { ref message, .. } if message == "api down"));
}

#[test]
fn unexpected_events_are_not_accepted() {
    let run = GpuJobRun::new(&job(), false, 1);
    assert!(!run.accepts(&RunEvent::Done));
    assert!(run.accepts(&RunEvent::Begin));
    assert!(run.accepts(&RunEvent::Failed(String::new())));
}
