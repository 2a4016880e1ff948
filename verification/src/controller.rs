use vstd::prelude::*;

use crate::api::{
    opt_view, GpuJob, GpuJobPhase, GpuJobStatusView, ObjectMeta, ObjectRef, OwnerReference,
    TypeMeta,
};
use crate::status::{job_name_label, owned_by};
use crate::strmap::StringMap;
use crate::text::{chars_eq_str, chars_of, push_str, string_from};
use crate::workspace::namespace_or_default;

verus! {

/// Where the controller starts runner pods from.
#[derive(Debug, Default)]
pub struct ControllerConfig {
    pub runner_image: String,
    pub runner_api_server: String,
}

#[derive(Debug, Clone, Copy, PartialEq, Eq, Structural)]
pub enum TolerationOperator {
    Exists,
    Equal,
}

#[derive(Debug, Clone, Copy, PartialEq, Eq, Structural)]
pub enum TaintEffect {
    NoSchedule,
    PreferNoSchedule,
    NoExecute,
}

#[derive(Debug)]
pub struct Toleration {
    pub key: Option<String>,
    pub operator: TolerationOperator,
    pub value: Option<String>,
    pub effect: Option<TaintEffect>,
    pub toleration_seconds: Option<i64>,
}

#[derive(Debug)]
pub struct EnvVar {
    pub name: String,
    pub value: String,
}

#[derive(Debug, Default)]
pub struct ContainerSpec {
    pub name: String,
    pub image: String,
    pub command: Vec<String>,
    pub args: Vec<String>,
    pub env: Vec<EnvVar>,
}

#[derive(Debug, Default)]
pub struct PodSpec {
    pub host_network: bool,
    pub restart_policy: Option<String>,
    pub node_selector: StringMap,
    pub tolerations: Vec<Toleration>,
    pub containers: Vec<ContainerSpec>,
}

#[derive(Debug, Default)]
pub struct Pod {
    pub types: TypeMeta,
    pub metadata: ObjectMeta,
    pub spec: PodSpec,
}

/// The label key of control-plane nodes.
pub open spec fn control_plane_key() -> Seq<char> {
    "node-role.kubernetes.io/control-plane"@
}

pub open spec fn runner_pod_name_of(job_name: Seq<char>) -> Seq<char> {
    "gpujob-runner-"@ + job_name
}

/// The name of a job's runner pod: `gpujob-runner-<job name>`.
pub fn runner_pod_name(gpujob_name: &str) -> (r: String)
    ensures
        r@ == runner_pod_name_of(gpujob_name@),
{
    let mut c = chars_of("gpujob-runner-");
    push_str(&mut c, gpujob_name);
    string_from(&c)
}

/// The namespace of an object, or `default` when it has none.
pub fn object_namespace(namespace: &str) -> (r: String)
    ensures
        r@ == namespace_or_default(namespace@),
{
    if namespace.is_empty() {
        String::from_str("default")
    } else {
        String::from_str(namespace)
    }
}

pub open spec fn is_terminal_phase(phase: GpuJobPhase) -> bool {
    phase == GpuJobPhase::Succeeded || phase == GpuJobPhase::Failed || phase
        == GpuJobPhase::Cancelled
}

/// Whether a job has ended: succeeded, failed or cancelled.
pub fn is_terminal(phase: GpuJobPhase) -> (r: bool)
    ensures
        r == is_terminal_phase(phase),
{
    match phase {
        GpuJobPhase::Succeeded | GpuJobPhase::Failed | GpuJobPhase::Cancelled => true,
        _ => false,
    }
}

/// The node selector that pins runner pods to control-plane nodes.
pub fn control_plane_selector() -> (r: StringMap)
    ensures
        r@ == Map::<Seq<char>, Seq<char>>::empty().insert(control_plane_key(), Seq::empty()),
{
    let mut m = StringMap::new();
    m.insert(String::from_str("node-role.kubernetes.io/control-plane"), String::new());
    m
}

pub open spec fn is_control_plane_toleration(t: Toleration) -> bool {
    &&& opt_view(t.key) == Some(control_plane_key())
    &&& t.operator == TolerationOperator::Exists
    &&& t.value is None
    &&& t.effect == Some(TaintEffect::NoSchedule)
    &&& t.toleration_seconds is None
}

/// The toleration that lets runner pods onto control-plane nodes.
pub fn control_plane_toleration() -> (r: Vec<Toleration>)
    ensures
        r@.len() == 1,
        is_control_plane_toleration(r@[0]),
{
    let mut v: Vec<Toleration> = Vec::new();
    v.push(
        Toleration {
            key: Some(String::from_str("node-role.kubernetes.io/control-plane")),
            operator: TolerationOperator::Exists,
            value: None,
            effect: Some(TaintEffect::NoSchedule),
            toleration_seconds: None,
        },
    );
    v
}

/// The labels of a job's runner pod: its component, the job's name, and the
/// job's uid when it has one.
pub open spec fn runner_labels(job: GpuJob) -> Map<Seq<char>, Seq<char>> {
    let base = Map::<Seq<char>, Seq<char>>::empty().insert("component"@, "gpujob-runner"@).insert(
        job_name_label(),
        job.metadata.name@,
    );
    match job.metadata.uid {
        Some(u) => base.insert("gpujob.minik8s.io/uid"@, u@),
        None => base,
    }
}

/// What the runner pod of `job` is: named after the job, in its namespace
/// (`default` when none), labelled and owned by it, on the host network,
/// never restarted, on control-plane nodes, running `gpujob-runner` against
/// the configured API server for this job.
pub open spec fn is_runner_pod(pod: Pod, job: GpuJob, config: ControllerConfig) -> bool {
    let c = pod.spec.containers@[0];
    &&& pod.types.api_version@ == "v1"@
    &&& pod.types.kind@ == "Pod"@
    &&& pod.metadata.name@ == runner_pod_name_of(job.metadata.name@)
    &&& pod.metadata.namespace@ == namespace_or_default(job.metadata.namespace@)
    &&& pod.metadata.uid is None
    &&& pod.metadata.labels@ == runner_labels(job)
    &&& pod.metadata.owner_references@.len() == 1
    &&& owned_by(pod.metadata.owner_references@[0], job)
    &&& pod.spec.host_network
    &&& opt_view(pod.spec.restart_policy) == Some("Never"@)
    &&& pod.spec.node_selector@ == Map::<Seq<char>, Seq<char>>::empty().insert(
        control_plane_key(),
        Seq::empty(),
    )
    &&& pod.spec.tolerations@.len() == 1
    &&& is_control_plane_toleration(pod.spec.tolerations@[0])
    &&& pod.spec.containers@.len() == 1
    &&& c.name@ == "runner"@
    &&& c.image@ == config.runner_image@
    &&& c.command@.len() == 1
    &&& c.command@[0]@ == "gpujob-runner"@
    &&& c.args@.len() == 3
    &&& c.args@[0]@ == "--api-server="@ + config.runner_api_server@
    &&& c.args@[1]@ == "--namespace="@ + job.metadata.namespace@
    &&& c.args@[2]@ == "--name="@ + job.metadata.name@
    &&& c.env@.len() == 2
    &&& c.env@[0].name@ == "GPUJOB_NAMESPACE"@
    &&& c.env@[0].value@ == job.metadata.namespace@
    &&& c.env@[1].name@ == "GPUJOB_NAME"@
    &&& c.env@[1].value@ == job.metadata.name@
}

fn prefixed(prefix: &str, value: &str) -> (r: String)
    ensures
        r@ == prefix@ + value@,
{
    let mut c = chars_of(prefix);
    push_str(&mut c, value);
    string_from(&c)
}

/// The pod that runs a job's runner.
pub fn runner_pod(gpujob: &GpuJob, config: &ControllerConfig) -> (pod: Pod)
    ensures
        is_runner_pod(pod, *gpujob, *config),
{
    let namespace = object_namespace(gpujob.metadata.namespace.as_str());
    let pod_name = runner_pod_name(gpujob.metadata.name.as_str());
    let mut labels = StringMap::new();
    labels.insert(String::from_str("component"), String::from_str("gpujob-runner"));
    labels.insert(String::from_str("gpujob.minik8s.io/name"), gpujob.metadata.name.clone());
    match &gpujob.metadata.uid {
        Some(uid) => {
            labels.insert(String::from_str("gpujob.minik8s.io/uid"), uid.clone());
        },
        None => {},
    }
    let mut owners: Vec<OwnerReference> = Vec::new();
    owners.push(gpujob.owner_ref());
    let mut command: Vec<String> = Vec::new();
    command.push(String::from_str("gpujob-runner"));
    let mut args: Vec<String> = Vec::new();
    args.push(prefixed("--api-server=", config.runner_api_server.as_str()));
    args.push(prefixed("--namespace=", gpujob.metadata.namespace.as_str()));
    args.push(prefixed("--name=", gpujob.metadata.name.as_str()));
    let mut env: Vec<EnvVar> = Vec::new();
    env.push(
        EnvVar {
            name: String::from_str("GPUJOB_NAMESPACE"),
            value: gpujob.metadata.namespace.clone(),
        },
    );
    env.push(EnvVar { name: String::from_str("GPUJOB_NAME"), value: gpujob.metadata.name.clone() });
    let mut containers: Vec<ContainerSpec> = Vec::new();
    containers.push(
        ContainerSpec {
            name: String::from_str("runner"),
            image: config.runner_image.clone(),
            command,
            args,
            env,
        },
    );
    Pod {
        types: TypeMeta { api_version: String::from_str("v1"), kind: String::from_str("Pod") },
        metadata: ObjectMeta {
            name: pod_name,
            namespace,
            uid: None,
            labels,
            owner_references: owners,
        },
        spec: PodSpec {
            host_network: true,
            restart_policy: Some(String::from_str("Never")),
            node_selector: control_plane_selector(),
            tolerations: control_plane_toleration(),
            containers,
        },
    }
}

// ---------------------------------------------------------------------------
// Reconciling a job
// ---------------------------------------------------------------------------

/// Where one reconciliation of a job stands.
#[derive(Debug, Clone, Copy, PartialEq, Eq, Structural)]
pub enum ReconcileStep {
    Start,
    DeletingPod,
    LookingUpPod,
    CreatingPod,
    MarkingPod,
    Finished,
}

/// What came of the last action.
#[derive(Debug, Clone, Copy, PartialEq, Eq, Structural)]
pub enum ReconcileEvent {
    /// The reconciliation begins.
    Begin,
    /// The action succeeded.
    Done,
    /// The API server does not have the object the action named.
    NotFound,
}

/// What the controller does next.
#[derive(Debug)]
pub enum ReconcileAction {
    DeletePod { namespace: String, name: String },
    GetPod { namespace: String, name: String },
    CreatePod { pod: Pod },
    MarkRunnerPod { namespace: String, pod_name: String },
    Finish,
}

/// The job's status says nothing of this runner pod yet, or the job is
/// pending without a Slurm job.
pub open spec fn needs_mark(status: GpuJobStatusView, pod_name: Seq<char>) -> bool {
    status.runner_pod != pod_name || (status.phase == GpuJobPhase::Pending
        && status.slurm_job_id.len() == 0)
}

/// The step after the runner pod exists: mark it in the status when needed.
pub open spec fn after_pod(
    r: (ReconcileStep, ReconcileAction),
    key: ObjectRef,
    job: GpuJob,
) -> bool {
    let pod_name = runner_pod_name_of(job.metadata.name@);
    if needs_mark(job.status@, pod_name) {
        &&& r.0 == ReconcileStep::MarkingPod
        &&& r.1 matches ReconcileAction::MarkRunnerPod { namespace, pod_name: p } && namespace@
            == namespace_or_default(key.namespace@) && p@ == pod_name
    } else {
        r.0 == ReconcileStep::Finished && r.1 is Finish
    }
}

pub open spec fn finished(r: (ReconcileStep, ReconcileAction)) -> bool {
    r.0 == ReconcileStep::Finished && r.1 is Finish
}

/// The decisions of one reconciliation of the job under `key`, whose cached
/// copy is `job` (none when it was deleted).
pub open spec fn reconcile_transition(
    step: ReconcileStep,
    event: ReconcileEvent,
    key: ObjectRef,
    job: Option<GpuJob>,
    config: ControllerConfig,
    r: (ReconcileStep, ReconcileAction),
) -> bool {
    let ns = namespace_or_default(key.namespace@);
    match step {
        ReconcileStep::Start => match job {
            None => {
                &&& r.0 == ReconcileStep::DeletingPod
                &&& r.1 matches ReconcileAction::DeletePod { namespace, name } && namespace@ == ns
                    && name@ == runner_pod_name_of(key.name@)
            },
            Some(j) => if is_terminal_phase(j.status.phase) {
                finished(r)
            } else {
                &&& r.0 == ReconcileStep::LookingUpPod
                &&& r.1 matches ReconcileAction::GetPod { namespace, name } && namespace@ == ns
                    && name@ == runner_pod_name_of(j.metadata.name@)
            },
        },
        ReconcileStep::LookingUpPod => match job {
            None => finished(r),
            Some(j) => if event == ReconcileEvent::NotFound {
                &&& r.0 == ReconcileStep::CreatingPod
                &&& r.1 matches ReconcileAction::CreatePod { pod } && is_runner_pod(pod, j, config)
            } else {
                after_pod(r, key, j)
            },
        },
        ReconcileStep::CreatingPod => match job {
            None => finished(r),
            Some(j) => after_pod(r, key, j),
        },
        _ => finished(r),
    }
}

fn mark_or_finish(key: &ObjectRef, gpujob: &GpuJob) -> (r: (ReconcileStep, ReconcileAction))
    ensures
        after_pod(r, *key, *gpujob),
{
    let pod_name = runner_pod_name(gpujob.metadata.name.as_str());
    let current = chars_of(gpujob.status.runner_pod.as_str());
    let same_pod = chars_eq_str(&current, pod_name.as_str());
    if !same_pod || (gpujob.status.phase == GpuJobPhase::Pending
        && gpujob.status.slurm_job_id.as_str().is_empty()) {
        (
            ReconcileStep::MarkingPod,
            ReconcileAction::MarkRunnerPod {
                namespace: object_namespace(key.namespace.as_str()),
                pod_name,
            },
        )
    } else {
        (ReconcileStep::Finished, ReconcileAction::Finish)
    }
}

/// One decision of the reconciliation of the job under `key`: a deleted job
/// loses its runner pod; an ended job is left alone; otherwise the runner pod
/// is made when missing, and the job's status is marked with it when needed.
pub fn reconcile_step(
    step: ReconcileStep,
    event: ReconcileEvent,
    key: &ObjectRef,
    gpujob: Option<&GpuJob>,
    config: &ControllerConfig,
) -> (r: (ReconcileStep, ReconcileAction))
    ensures
        reconcile_transition(
            step,
            event,
            *key,
            match gpujob {
                Some(j) => Some(*j),
                None => None,
            },
            *config,
            r,
        ),
{
    let ns = object_namespace(key.namespace.as_str());
    match step {
        ReconcileStep::Start => match gpujob {
            None => (
                ReconcileStep::DeletingPod,
                ReconcileAction::DeletePod {
                    namespace: ns,
                    name: runner_pod_name(key.name.as_str()),
                },
            ),
            Some(j) => {
                if is_terminal(j.status.phase) {
                    (ReconcileStep::Finished, ReconcileAction::Finish)
                } else {
                    (
                        ReconcileStep::LookingUpPod,
                        ReconcileAction::GetPod {
                            namespace: ns,
                            name: runner_pod_name(j.metadata.name.as_str()),
                        },
                    )
                }
            },
        },
        ReconcileStep::LookingUpPod => match gpujob {
            None => (ReconcileStep::Finished, ReconcileAction::Finish),
            Some(j) => {
                if event == ReconcileEvent::NotFound {
                    (
                        ReconcileStep::CreatingPod,
                        ReconcileAction::CreatePod { pod: runner_pod(j, config) },
                    )
                } else {
                    mark_or_finish(key, j)
                }
            },
        },
        ReconcileStep::CreatingPod => match gpujob {
            None => (ReconcileStep::Finished, ReconcileAction::Finish),
            Some(j) => mark_or_finish(key, j),
        },
        _ => (ReconcileStep::Finished, ReconcileAction::Finish),
    }
}

} // verus!
