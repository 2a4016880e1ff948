use vstd::prelude::*;

use crate::api::{
    opt_view, GpuJob, GpuJobPhase, GpuJobStatus, GpuJobStatusView, ObjectMeta, OwnerReference,
    Timestamp, TypeMeta, API_VERSION,
};
use crate::slurm::{slurm_phase, slurm_reason, SlurmJobStatus, SlurmJobStatusView};
use crate::strmap::StringMap;
use crate::text::{chars_eq_str, chars_of, push_str, string_from};

verus! {

// ---------------------------------------------------------------------------
// The clock
// ---------------------------------------------------------------------------

#[verifier::external_type_specification]
#[verifier::external_body]
pub struct ExSystemTime(std::time::SystemTime);

/// `std::time::SystemTime::now()`: the system clock. Which instant comes
/// back is not stated.
#[verifier::external_body]
fn system_time_now() -> std::time::SystemTime {
    std::time::SystemTime::now()
}

/// `SystemTime::duration_since(UNIX_EPOCH)`: the time elapsed since the Unix
/// epoch, `None` for a time before it (the `Err` of `duration_since`). Which
/// duration comes back for a given time is not stated.
#[verifier::external_body]
fn since_unix_epoch(t: &std::time::SystemTime) -> Option<std::time::Duration> {
    match t.duration_since(std::time::UNIX_EPOCH) {
        Ok(d) => Some(d),
        Err(_) => None,
    }
}

/// `Duration::as_secs`: the whole seconds of a duration. Which number comes
/// back is not stated.
#[verifier::external_body]
fn whole_seconds(d: &std::time::Duration) -> u64 {
    d.as_secs()
}

/// `Duration::subsec_nanos`: the nanoseconds past the whole seconds, which
/// the documentation bounds below one second.
#[verifier::external_body]
fn nanos_past_second(d: &std::time::Duration) -> (r: u32)
    ensures
        r < 1_000_000_000,
{
    d.subsec_nanos()
}

/// The current time, when the system clock reads a time at or after the Unix
/// epoch whose seconds fit an `i64`; `None` otherwise.
pub fn current_time() -> (t: Option<Timestamp>)
    ensures
        t matches Some(t) ==> t.secs >= 0 && t.nanos < 1_000_000_000,
{
    let now = system_time_now();
    match since_unix_epoch(&now) {
        Some(d) => {
            let secs = whole_seconds(&d);
            let nanos = nanos_past_second(&d);
            if secs <= 0x7FFF_FFFF_FFFF_FFFF {
                Some(Timestamp { secs: secs as i64, nanos })
            } else {
                None
            }
        },
        None => None,
    }
}

// ---------------------------------------------------------------------------
// Status updates
// ---------------------------------------------------------------------------

/// The start time: kept when set, otherwise `now`.
pub open spec fn started(s: GpuJobStatusView, now: Timestamp) -> Option<Timestamp> {
    if s.start_time is None {
        Some(now)
    } else {
        s.start_time
    }
}

/// The command that shows the job in the Slurm queue.
pub open spec fn query_command_of(job_id: Seq<char>) -> Seq<char> {
    "squeue -j "@ + job_id
}

pub open spec fn set_phase_spec(
    s: GpuJobStatusView,
    phase: GpuJobPhase,
    message: Seq<char>,
    now: Timestamp,
) -> GpuJobStatusView {
    GpuJobStatusView {
        phase: phase,
        message: message,
        last_probe_time: Some(now),
        start_time: started(s, now),
        ..s
    }
}

pub open spec fn submitted_spec(
    s: GpuJobStatusView,
    job_id: Seq<char>,
    remote_work_dir: Seq<char>,
    now: Timestamp,
) -> GpuJobStatusView {
    GpuJobStatusView {
        phase: GpuJobPhase::Submitted,
        message: "submitted Slurm job"@,
        slurm_job_id: job_id,
        remote_work_dir: remote_work_dir,
        submitted_time: Some(now),
        query_command: query_command_of(job_id),
        last_probe_time: Some(now),
        start_time: started(s, now),
        ..s
    }
}

/// What a Slurm status adds to a job status.
pub open spec fn merge_slurm_spec(s: GpuJobStatusView, slurm: SlurmJobStatusView) -> GpuJobStatusView {
    GpuJobStatusView {
        slurm_job_id: slurm.job_id,
        slurm_state: slurm.state,
        query_command: if slurm.job_id.len() > 0 && s.query_command.len() == 0 {
            query_command_of(slurm.job_id)
        } else {
            s.query_command
        },
        elapsed: slurm.elapsed,
        time_limit: slurm.time_limit,
        exit_code: slurm.exit_code,
        max_rss: slurm.max_rss,
        req_mem: slurm.req_mem,
        ..s
    }
}

pub open spec fn running_message(slurm: SlurmJobStatusView) -> Seq<char> {
    let pending = slurm.state == "PENDING"@;
    if slurm.reason_or_node.len() == 0 {
        if pending {
            "Slurm job pending"@
        } else {
            "Slurm job running"@
        }
    } else if pending {
        "Slurm job pending: "@ + slurm.reason_or_node
    } else {
        "Slurm job running: "@ + slurm.reason_or_node
    }
}

pub open spec fn running_spec(
    s: GpuJobStatusView,
    slurm: SlurmJobStatusView,
    now: Timestamp,
) -> GpuJobStatusView {
    let m = merge_slurm_spec(s, slurm);
    GpuJobStatusView {
        phase: if slurm.state == "PENDING"@ {
            GpuJobPhase::Pending
        } else {
            GpuJobPhase::Running
        },
        message: running_message(slurm),
        last_probe_time: Some(now),
        ..m
    }
}

pub open spec fn fail_spec(
    s: GpuJobStatusView,
    reason: Seq<char>,
    message: Seq<char>,
    slurm: Option<SlurmJobStatusView>,
    now: Timestamp,
) -> GpuJobStatusView {
    let f = GpuJobStatusView {
        phase: GpuJobPhase::Failed,
        reason: reason,
        message: message,
        last_probe_time: Some(now),
        completion_time: Some(now),
        ..s
    };
    match slurm {
        Some(sl) => merge_slurm_spec(f, sl),
        None => f,
    }
}

pub open spec fn finish_message(slurm: SlurmJobStatusView) -> Seq<char> {
    if slurm_reason(slurm).len() == 0 {
        "Slurm job completed"@
    } else {
        "Slurm job ended with state "@ + slurm.state
    }
}

pub open spec fn finish_spec(
    s: GpuJobStatusView,
    slurm: SlurmJobStatusView,
    stdout_tail: Seq<char>,
    stderr_tail: Seq<char>,
    result_config_map: Seq<char>,
    now: Timestamp,
) -> GpuJobStatusView {
    let m = merge_slurm_spec(s, slurm);
    GpuJobStatusView {
        phase: slurm_phase(slurm),
        reason: slurm_reason(slurm),
        message: finish_message(slurm),
        stdout_tail: stdout_tail,
        stderr_tail: stderr_tail,
        result_config_map: result_config_map,
        last_probe_time: Some(now),
        completion_time: Some(now),
        ..m
    }
}

pub open spec fn mark_runner_pod_spec(
    s: GpuJobStatusView,
    pod_name: Seq<char>,
    now: Timestamp,
) -> GpuJobStatusView {
    GpuJobStatusView {
        phase: GpuJobPhase::Preparing,
        runner_pod: pod_name,
        message: "runner pod created"@,
        last_probe_time: Some(now),
        ..s
    }
}

fn query_command(job_id: &str) -> (r: String)
    ensures
        r@ == query_command_of(job_id@),
{
    let mut c = chars_of("squeue -j ");
    push_str(&mut c, job_id);
    string_from(&c)
}

/// Copies the Slurm fields into the status; the query command is set from
/// the job id only when there is a job id and no query command yet.
pub fn merge_slurm(status: &mut GpuJobStatus, slurm: &SlurmJobStatus)
    ensures
        final(status)@ == merge_slurm_spec(old(status)@, slurm@),
{
    status.slurm_job_id = slurm.job_id.clone();
    status.slurm_state = slurm.state.clone();
    if !slurm.job_id.as_str().is_empty() && status.query_command.as_str().is_empty() {
        status.query_command = query_command(slurm.job_id.as_str());
    }
    status.elapsed = slurm.elapsed.clone();
    status.time_limit = slurm.time_limit.clone();
    status.exit_code = slurm.exit_code.clone();
    status.max_rss = slurm.max_rss.clone();
    status.req_mem = slurm.req_mem.clone();
}

/// The status with a new phase and message, probed at `now`, started at
/// `now` unless it had started before.
pub fn set_phase_at(status: GpuJobStatus, phase: GpuJobPhase, message: &str, now: Timestamp) -> (r:
    GpuJobStatus)
    ensures
        r@ == set_phase_spec(status@, phase, message@, now),
{
    let mut s = status;
    s.phase = phase;
    s.message = String::from_str(message);
    s.last_probe_time = Some(now);
    if s.start_time.is_none() {
        s.start_time = Some(now);
    }
    s
}

/// `set_phase_at` at the current time; `None` when the system clock cannot
/// be read as a time since the Unix epoch.
pub fn set_phase(status: GpuJobStatus, phase: GpuJobPhase, message: &str) -> (r: Option<GpuJobStatus>)
    ensures
        r matches Some(s) ==> s.last_probe_time is Some && s@ == set_phase_spec(status@, phase, message@, s.last_probe_time.unwrap()),
{
    match current_time() {
        Some(now) => Some(set_phase_at(status, phase, message, now)),
        None => None,
    }
}

/// The status of a job that Slurm accepted as `slurm_job_id`, run in
/// `remote_work_dir`.
pub fn submitted_at(
    status: GpuJobStatus,
    slurm_job_id: &str,
    remote_work_dir: &str,
    now: Timestamp,
) -> (r: GpuJobStatus)
    ensures
        r@ == submitted_spec(status@, slurm_job_id@, remote_work_dir@, now),
{
    let mut s = status;
    s.phase = GpuJobPhase::Submitted;
    s.message = String::from_str("submitted Slurm job");
    s.slurm_job_id = String::from_str(slurm_job_id);
    s.remote_work_dir = String::from_str(remote_work_dir);
    s.submitted_time = Some(now);
    s.query_command = query_command(slurm_job_id);
    s.last_probe_time = Some(now);
    if s.start_time.is_none() {
        s.start_time = Some(now);
    }
    s
}

/// `submitted_at` at the current time; `None` when the system clock cannot
/// be read as a time since the Unix epoch.
pub fn submitted(status: GpuJobStatus, slurm_job_id: &str, remote_work_dir: &str) -> (r: Option<GpuJobStatus>)
    ensures
        r matches Some(s) ==> s.last_probe_time is Some && s@ == submitted_spec(status@, slurm_job_id@, remote_work_dir@, s.last_probe_time.unwrap()),
{
    match current_time() {
        Some(now) => Some(submitted_at(status, slurm_job_id, remote_work_dir, now)),
        None => None,
    }
}

/// The status of a job that is still in the Slurm queue: pending when Slurm
/// says `PENDING`, otherwise running, with Slurm's reason or node in the message.
pub fn running_at(status: GpuJobStatus, slurm: &SlurmJobStatus, now: Timestamp) -> (r:
    GpuJobStatus)
    ensures
        r@ == running_spec(status@, slurm@, now),
{
    let mut s = status;
    merge_slurm(&mut s, slurm);
    let state = chars_of(slurm.state.as_str());
    let pending = chars_eq_str(&state, "PENDING");
    s.phase = if pending {
        GpuJobPhase::Pending
    } else {
        GpuJobPhase::Running
    };
    s.message = if slurm.reason_or_node.as_str().is_empty() {
        if pending {
            String::from_str("Slurm job pending")
        } else {
            String::from_str("Slurm job running")
        }
    } else if pending {
        String::from_str("Slurm job pending: ").concat(slurm.reason_or_node.as_str())
    } else {
        String::from_str("Slurm job running: ").concat(slurm.reason_or_node.as_str())
    };
    s.last_probe_time = Some(now);
    s
}

/// `running_at` at the current time; `None` when the system clock cannot
/// be read as a time since the Unix epoch.
pub fn running(status: GpuJobStatus, slurm: &SlurmJobStatus) -> (r: Option<GpuJobStatus>)
    ensures
        r matches Some(s) ==> s.last_probe_time is Some && s@ == running_spec(status@, slurm@, s.last_probe_time.unwrap()),
{
    match current_time() {
        Some(now) => Some(running_at(status, slurm, now)),
        None => None,
    }
}

/// The status of a job that failed for `reason`, with the Slurm fields
/// copied in when there is a Slurm status.
pub fn fail_at(
    status: GpuJobStatus,
    reason: &str,
    message: &str,
    slurm: Option<&SlurmJobStatus>,
    now: Timestamp,
) -> (r: GpuJobStatus)
    ensures
        r@ == fail_spec(
            status@,
            reason@,
            message@,
            match slurm {
                Some(sl) => Some(sl@),
                None => None,
            },
            now,
        ),
{
    let mut s = status;
    s.phase = GpuJobPhase::Failed;
    s.reason = String::from_str(reason);
    s.message = String::from_str(message);
    s.last_probe_time = Some(now);
    s.completion_time = Some(now);
    match slurm {
        Some(sl) => merge_slurm(&mut s, sl),
        None => {},
    }
    s
}

/// `fail_at` at the current time; `None` when the system clock cannot
/// be read as a time since the Unix epoch.
pub fn fail(status: GpuJobStatus, reason: &str, message: &str, slurm: Option<&SlurmJobStatus>) -> (r: Option<GpuJobStatus>)
    ensures
        r matches Some(s) ==> s.last_probe_time is Some && s@ == fail_spec(
                status@,
                reason@,
                message@,
                match slurm {
                    Some(sl) => Some(sl@),
                    None => None,
                },
                s.last_probe_time.unwrap(),
            ),
{
    match current_time() {
        Some(now) => Some(fail_at(status, reason, message, slurm, now)),
        None => None,
    }
}

/// The status of a job that left Slurm: phase and reason from the Slurm
/// state, the output tails and the name of the result config map.
pub fn finish_at(
    status: GpuJobStatus,
    slurm: &SlurmJobStatus,
    stdout_tail: String,
    stderr_tail: String,
    result_config_map: String,
    now: Timestamp,
) -> (r: GpuJobStatus)
    ensures
        r@ == finish_spec(
            status@,
            slurm@,
            stdout_tail@,
            stderr_tail@,
            result_config_map@,
            now,
        ),
{
    let mut s = status;
    merge_slurm(&mut s, slurm);
    s.phase = slurm.phase();
    s.reason = slurm.reason();
    s.message = if s.reason.as_str().is_empty() {
        String::from_str("Slurm job completed")
    } else {
        String::from_str("Slurm job ended with state ").concat(slurm.state.as_str())
    };
    s.stdout_tail = stdout_tail;
    s.stderr_tail = stderr_tail;
    s.result_config_map = result_config_map;
    s.last_probe_time = Some(now);
    s.completion_time = Some(now);
    s
}

/// `finish_at` at the current time; `None` when the system clock cannot
/// be read as a time since the Unix epoch.
pub fn finish(
    status: GpuJobStatus,
    slurm: &SlurmJobStatus,
    stdout_tail: String,
    stderr_tail: String,
    result_config_map: String,
) -> (r: Option<GpuJobStatus>)
    ensures
        r matches Some(s) ==> s.last_probe_time is Some && s@ == finish_spec(
                status@,
                slurm@,
                stdout_tail@,
                stderr_tail@,
                result_config_map@,
                s.last_probe_time.unwrap(),
            ),
{
    match current_time() {
        Some(now) => Some(finish_at(status, slurm, stdout_tail, stderr_tail, result_config_map, now)),
        None => None,
    }
}

/// The status of a job whose runner pod `pod_name` was just made.
pub fn mark_runner_pod_at(status: GpuJobStatus, pod_name: &str, now: Timestamp) -> (r:
    GpuJobStatus)
    ensures
        r@ == mark_runner_pod_spec(status@, pod_name@, now),
{
    let mut s = status;
    s.phase = GpuJobPhase::Preparing;
    s.runner_pod = String::from_str(pod_name);
    s.message = String::from_str("runner pod created");
    s.last_probe_time = Some(now);
    s
}

/// `mark_runner_pod_at` at the current time; `None` when the system clock cannot
/// be read as a time since the Unix epoch.
pub fn mark_runner_pod(status: GpuJobStatus, pod_name: &str) -> (r: Option<GpuJobStatus>)
    ensures
        r matches Some(s) ==> s.last_probe_time is Some && s@ == mark_runner_pod_spec(status@, pod_name@, s.last_probe_time.unwrap()),
{
    match current_time() {
        Some(now) => Some(mark_runner_pod_at(status, pod_name, now)),
        None => None,
    }
}

// ---------------------------------------------------------------------------
// The result config map
// ---------------------------------------------------------------------------

/// A config map: plain string data under an object's metadata.
#[derive(Debug, Default)]
pub struct ConfigMap {
    pub types: TypeMeta,
    pub metadata: ObjectMeta,
    pub data: StringMap,
}

/// The label that ties an object to the job it was made for.
pub open spec fn job_name_label() -> Seq<char> {
    "gpujob.minik8s.io/name"@
}

/// The name of a job's result config map: `gpujob-<name>-result`.
pub open spec fn result_config_map_name(job_name: Seq<char>) -> Seq<char> {
    "gpujob-"@ + job_name + "-result"@
}

/// The owner reference a job's objects carry.
pub open spec fn owned_by(r: OwnerReference, job: GpuJob) -> bool {
    &&& r.api_version@ == API_VERSION@
    &&& r.kind@ == "GPUJob"@
    &&& r.name@ == job.metadata.name@
    &&& opt_view(r.uid) == opt_view(job.metadata.uid)
}

/// The config map that keeps a job's collected files, with the Slurm job id
/// under `slurmJobId`; none when no file was collected.
pub fn store_results(
    namespace: &str,
    gpujob: &GpuJob,
    slurm_job_id: &str,
    files: &StringMap,
) -> (r: Option<ConfigMap>)
    ensures
        r is None <==> files@ == Map::<Seq<char>, Seq<char>>::empty(),
        r matches Some(cm) ==> {
            &&& cm.types.api_version@ == "v1"@
            &&& cm.types.kind@ == "ConfigMap"@
            &&& cm.metadata.name@ == result_config_map_name(gpujob.metadata.name@)
            &&& cm.metadata.namespace@ == namespace@
            &&& cm.metadata.uid is None
            &&& cm.metadata.labels@ == Map::<Seq<char>, Seq<char>>::empty().insert(
                job_name_label(),
                gpujob.metadata.name@,
            )
            &&& cm.metadata.owner_references@.len() == 1
            &&& owned_by(cm.metadata.owner_references@[0], *gpujob)
            &&& cm.data@ == files@.insert("slurmJobId"@, slurm_job_id@)
        },
{
    if files.is_empty() {
        return None;
    }
    let mut name = chars_of("gpujob-");
    push_str(&mut name, gpujob.metadata.name.as_str());
    push_str(&mut name, "-result");
    let mut data = files.copy();
    data.insert(String::from_str("slurmJobId"), String::from_str(slurm_job_id));
    let mut labels = StringMap::new();
    labels.insert(String::from_str("gpujob.minik8s.io/name"), gpujob.metadata.name.clone());
    let mut owners: Vec<OwnerReference> = Vec::new();
    owners.push(gpujob.owner_ref());
    Some(
        ConfigMap {
            types: TypeMeta { api_version: String::from_str("v1"), kind: String::from_str("ConfigMap") },
            metadata: ObjectMeta {
                name: string_from(&name),
                namespace: String::from_str(namespace),
                uid: None,
                labels,
                owner_references: owners,
            },
            data,
        },
    )
}

} // verus!
