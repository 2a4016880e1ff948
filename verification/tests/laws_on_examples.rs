use gpu_plugin::api::{GpuJob, GpuJobPhase, GpuJobSourceFile, GpuJobStatus, ObjectRef, Timestamp};
use gpu_plugin::controller::{reconcile_step, ControllerConfig, ReconcileAction, ReconcileEvent, ReconcileStep};
use gpu_plugin::slurm::{parse_sacct_line, SlurmJobStatus};
use gpu_plugin::ssh::config_map_key;
use gpu_plugin::status::{mark_runner_pod_at, merge_slurm};
use gpu_plugin::workspace::{remote_work_dir, safe_child_path, sanitize};

#[test]
fn sanitizing_twice_changes_nothing() {
    for s in ["a b", "é/x", "ok", "", "..;|&"] {
        let once = sanitize(s);
        assert_eq!(sanitize(&once), once);
        assert!(once.chars().all(|c| c.is_ascii_alphanumeric() || "-_.".contains(c)));
        let key = config_map_key(s);
        assert_eq!(config_map_key(&key), key);
    }
}

#[test]
fn remote_work_dir_has_no_shell_metacharacters() {
    let mut job = GpuJob::default();
    job.metadata.name = "x; rm -rf ~".to_string();
    job.metadata.namespace = "$(id)".to_string();
    job.metadata.uid = Some("`u`".to_string());
    let dir = remote_work_dir(&job);
    let rest = dir.strip_prefix("~/minik8s-gpujobs/").unwrap();
    assert!(rest.chars().all(|c| c.is_ascii_alphanumeric() || "-_.".contains(c)));
}

#[test]
fn sacct_status_is_for_the_requested_job() {
    for out in ["", "1|FAILED|1:0|0|0|0", "2|RUNNING+|0:0|0|0|0\n", "garbage"] {
        let s = parse_sacct_line(out, "2");
        assert_eq!(s.job_id, "2");
        assert!(!s.state.ends_with('+'));
    }
}

#[test]
fn merging_the_same_slurm_status_twice() {
    let slurm = SlurmJobStatus {
        job_id: "4".to_string(),
        state: "RUNNING".to_string(),
        elapsed: "1".to_string(),
        ..SlurmJobStatus::default()
    };
    let mut once = GpuJobStatus::default();
    merge_slurm(&mut once, &slurm);
    let mut twice = GpuJobStatus::default();
    merge_slurm(&mut twice, &slurm);
    merge_slurm(&mut twice, &slurm);
    assert_eq!(format!("{once:?}"), format!("{twice:?}"));
}

#[test]
fn a_marked_job_is_not_marked_again() {
    let mut job = GpuJob::default();
    job.metadata.name = "a".to_string();
    job.status = mark_runner_pod_at(GpuJobStatus::default(), "gpujob-runner-a", Timestamp { secs: 1, nanos: 0 });
    assert_eq!(job.status.phase, GpuJobPhase::Preparing);
    let key = ObjectRef { namespace: String::new(), name: "a".to_string() };
    let (step, action) = reconcile_step(ReconcileStep::LookingUpPod, ReconcileEvent::Done, &key, Some(&job), &ControllerConfig::default());
    assert_eq!(step, ReconcileStep::Finished);
    assert!(matches!(action, ReconcileAction::Finish));
}

#[test]
fn accepted_job_files_land_in_the_workspace() {
    let mut job = GpuJob::default();
    job.spec.credential_ref.name = "c".to_string();
    job.spec.hpc.login_host = "h".to_string();
    job.spec.slurm.partition = "p".to_string();
    job.spec.slurm.gres = "g".to_string();
    job.spec.slurm.time = "t".to_string();
    job.spec.slurm.nodes = 1;
    job.spec.slurm.ntasks_per_node = 1;
    job.spec.slurm.cpus_per_task = 1;
    job.spec.run.command = "c".to_string();
    for path in [" src/a.cu", "./b", "c//d/", "e.f"] {
        job.spec.source.files = vec![GpuJobSourceFile { path: path.to_string(), content: String::new(), mode: None }];
        assert_eq!(job.validate_spec(), Ok(()));
        let p = safe_child_path("/w", path).unwrap();
        assert!(p.starts_with("/w"));
    }
}
