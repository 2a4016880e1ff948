use gpu_plugin::api::{GpuJob, GpuJobPhase, GpuJobStatus, Timestamp};
use gpu_plugin::slurm::SlurmJobStatus;
use gpu_plugin::status::{
    current_time, fail, fail_at, finish, finish_at, mark_runner_pod, mark_runner_pod_at,
    merge_slurm, running, running_at, set_phase, set_phase_at, store_results, submitted,
    submitted_at,
};
use gpu_plugin::strmap::StringMap;

const T1: Timestamp = Timestamp { secs: 100, nanos: 5 };
const T2: Timestamp = Timestamp { secs: 200, nanos: 0 };

fn slurm(job_id: &str, state: &str, reason_or_node: &str) -> SlurmJobStatus {
    SlurmJobStatus {
        job_id: job_id.to_string(),
        state: state.to_string(),
        elapsed: "0:42".to_string(),
        time_limit: "10:00".to_string(),
        reason_or_node: reason_or_node.to_string(),
        exit_code: "0:0".to_string(),
        max_rss: "12K".to_string(),
        req_mem: "4G".to_string(),
    }
}

#[test]
fn set_phase_starts_once() {
    let s = set_phase_at(GpuJobStatus::default(), GpuJobPhase::Preparing, "preparing local workspace", T1);
    assert_eq!(s.phase, GpuJobPhase::Preparing);
    assert_eq!(s.message, "preparing local workspace");
    assert_eq!(s.last_probe_time, Some(T1));
    assert_eq!(s.start_time, Some(T1));
    let s = set_phase_at(s, GpuJobPhase::Uploading, "uploading workspace to HPC", T2);
    assert_eq!(s.start_time, Some(T1));
    assert_eq!(s.last_probe_time, Some(T2));
}

#[test]
fn submitted_records_the_job() {
    let s = submitted_at(GpuJobStatus::default(), "123", "~/minik8s-gpujobs/x", T1);
    assert_eq!(s.phase, GpuJobPhase::Submitted);
    assert_eq!(s.message, "submitted Slurm job");
    assert_eq!(s.slurm_job_id, "123");
    assert_eq!(s.remote_work_dir, "~/minik8s-gpujobs/x");
    assert_eq!(s.query_command, "squeue -j 123");
    assert_eq!(s.submitted_time, Some(T1));
    assert_eq!(s.start_time, Some(T1));
}

#[test]
fn merge_slurm_sets_query_command_only_once() {
    let mut s = GpuJobStatus::default();
    merge_slurm(&mut s, &slurm("9", "RUNNING", "n1"));
    assert_eq!(s.query_command, "squeue -j 9");
    assert_eq!(s.slurm_state, "RUNNING");
    assert_eq!(s.elapsed, "0:42");
    assert_eq!(s.max_rss, "12K");
    merge_slurm(&mut s, &slurm("10", "RUNNING", "n1"));
    assert_eq!(s.slurm_job_id, "10");
    assert_eq!(s.query_command, "squeue -j 9");
    let mut e = GpuJobStatus::default();
    merge_slurm(&mut e, &slurm("", "RUNNING", ""));
    assert_eq!(e.query_command, "");
}

#[test]
fn pending_with_gres_limit_is_reported() {
    let s = running_at(GpuJobStatus::default(), &slurm("7", "PENDING", "(AssocGrpGRES)"), T1);
    assert_eq!(s.phase, GpuJobPhase::Pending);
    assert_eq!(s.message, "Slurm job pending: (AssocGrpGRES)");
    assert_eq!(s.slurm_state, "PENDING");
    let s = running_at(s, &slurm("7", "PENDING", ""), T2);
    assert_eq!(s.message, "Slurm job pending");
    let s = running_at(s, &slurm("7", "RUNNING", "gpu03"), T2);
    assert_eq!(s.phase, GpuJobPhase::Running);
    assert_eq!(s.message, "Slurm job running: gpu03");
    let s = running_at(s, &slurm("7", "RUNNING", ""), T2);
    assert_eq!(s.message, "Slurm job running");
}

#[test]
fn fail_marks_failure() {
    let s = fail_at(GpuJobStatus::default(), "RunnerFailed", "boom", None, T1);
    assert_eq!(s.phase, GpuJobPhase::Failed);
    assert_eq!(s.reason, "RunnerFailed");
    assert_eq!(s.message, "boom");
    assert_eq!(s.completion_time, Some(T1));
    assert_eq!(s.slurm_job_id, "");
    let st = slurm("8", "FAILED", "");
    let s = fail_at(GpuJobStatus::default(), "SubmitFailed", "x", Some(&st), T1);
    assert_eq!(s.slurm_job_id, "8");
    assert_eq!(s.slurm_state, "FAILED");
}

#[test]
fn finish_reports_how_the_job_ended() {
    let ok = slurm("3", "COMPLETED", "");
    let s = finish_at(GpuJobStatus::default(), &ok, "out".to_string(), "err".to_string(), "gpujob-a-result".to_string(), T2);
    assert_eq!(s.phase, GpuJobPhase::Succeeded);
    assert_eq!(s.reason, "");
    assert_eq!(s.message, "Slurm job completed");
    assert_eq!(s.stdout_tail, "out");
    assert_eq!(s.stderr_tail, "err");
    assert_eq!(s.result_config_map, "gpujob-a-result");
    assert_eq!(s.completion_time, Some(T2));
    let timeout = slurm("3", "TIMEOUT", "");
    let s = finish_at(GpuJobStatus::default(), &timeout, String::new(), String::new(), String::new(), T2);
    assert_eq!(s.phase, GpuJobPhase::Failed);
    assert_eq!(s.reason, "TimeLimitExceeded");
    assert_eq!(s.message, "Slurm job ended with state TIMEOUT");
    let cancelled = slurm("3", "CANCELLED", "");
    let s = finish_at(GpuJobStatus::default(), &cancelled, String::new(), String::new(), String::new(), T2);
    assert_eq!(s.phase, GpuJobPhase::Cancelled);
    assert_eq!(s.reason, "Cancelled");
}

#[test]
fn marking_the_runner_pod() {
    let mut base = GpuJobStatus::default();
    base.slurm_job_id = "keep".to_string();
    let s = mark_runner_pod_at(base, "gpujob-runner-a", T1);
    assert_eq!(s.phase, GpuJobPhase::Preparing);
    assert_eq!(s.runner_pod, "gpujob-runner-a");
    assert_eq!(s.message, "runner pod created");
    assert_eq!(s.slurm_job_id, "keep");
    assert_eq!(s.last_probe_time, Some(T1));
    assert_eq!(s.start_time, None);
}

#[test]
fn clock_based_updates_use_the_current_time() {
    let now = current_time().unwrap();
    assert!(now.secs > 1_600_000_000);
    assert!(now.nanos < 1_000_000_000);
    let s = set_phase(GpuJobStatus::default(), GpuJobPhase::Preparing, "p").unwrap();
    let t = s.last_probe_time.unwrap();
    assert!(t.secs >= now.secs);
    assert_eq!(s.start_time, Some(t));
    let s = submitted(s, "1", "d").unwrap();
    assert_eq!(s.submitted_time, s.last_probe_time);
    let s = running(s, &slurm("1", "RUNNING", "")).unwrap();
    assert!(s.last_probe_time.is_some());
    let s = fail(s, "r", "m", None).unwrap();
    assert_eq!(s.completion_time, s.last_probe_time);
    let s = finish(s, &slurm("1", "COMPLETED", ""), String::new(), String::new(), String::new())
        .unwrap();
    assert_eq!(s.phase, GpuJobPhase::Succeeded);
    let s = mark_runner_pod(s, "p").unwrap();
    assert!(s.last_probe_time.unwrap().secs > 1_600_000_000);
}

#[test]
fn results_config_map() {
    let mut job = GpuJob::default();
    job.metadata.name = "gpu-attention".to_string();
    job.metadata.uid = Some("uid-9".to_string());
    assert!(store_results("default", &job, "77", &StringMap::new()).is_none());
    let mut files = StringMap::new();
    files.insert("slurm-77.out".to_string(), "CUDA attention demo OK".to_string());
    let cm = store_results("default", &job, "77", &files).unwrap();
    assert_eq!(cm.types.api_version, "v1");
    assert_eq!(cm.types.kind, "ConfigMap");
    assert_eq!(cm.metadata.name, "gpujob-gpu-attention-result");
    assert_eq!(cm.metadata.namespace, "default");
    assert_eq!(cm.metadata.labels.get("gpujob.minik8s.io/name").unwrap(), "gpu-attention");
    assert_eq!(cm.metadata.owner_references.len(), 1);
    assert_eq!(cm.metadata.owner_references[0].name, "gpu-attention");
    assert_eq!(cm.metadata.owner_references[0].uid, Some("uid-9".to_string()));
    assert_eq!(cm.data.get("slurmJobId").unwrap(), "77");
    assert_eq!(cm.data.get("slurm-77.out").unwrap(), "CUDA attention demo OK");
    assert_eq!(files.get("slurmJobId"), None);
}

#[test]
fn slurm_job_id_entry_overrides_a_file_of_that_name() {
    let job = GpuJob::default();
    let mut files = StringMap::new();
    files.insert("slurmJobId".to_string(), "file content".to_string());
    let cm = store_results("ns", &job, "5", &files).unwrap();
    assert_eq!(cm.data.get("slurmJobId").unwrap(), "5");
    assert_eq!(cm.data.entries().len(), 1);
}
