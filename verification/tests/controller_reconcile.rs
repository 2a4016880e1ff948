use gpu_plugin::api::{GpuJob, GpuJobPhase, ObjectRef};
use gpu_plugin::controller::{
    control_plane_selector, control_plane_toleration, is_terminal, object_namespace,
    reconcile_step, runner_pod, runner_pod_name, ControllerConfig, ReconcileAction,
    ReconcileEvent, ReconcileStep, TaintEffect, TolerationOperator,
};

fn config() -> ControllerConfig {
    ControllerConfig {
        runner_image: "minik8s/gpujob-runner:latest".to_string(),
        runner_api_server: "http://127.0.0.1:8080".to_string(),
    }
}

fn job(name: &str, namespace: &str) -> GpuJob {
    let mut j = GpuJob::default();
    j.metadata.name = name.to_string();
    j.metadata.namespace = namespace.to_string();
    j.metadata.uid = Some("u1".to_string());
    j
}

fn key(namespace: &str, name: &str) -> ObjectRef {
    ObjectRef { namespace: namespace.to_string(), name: name.to_string() }
}

#[test]
fn names_and_namespaces() {
    assert_eq!(runner_pod_name("gpu-attention"), "gpujob-runner-gpu-attention");
    assert_eq!(object_namespace(""), "default");
    assert_eq!(object_namespace("team"), "team");
    assert!(is_terminal(GpuJobPhase::Succeeded));
    assert!(is_terminal(GpuJobPhase::Failed));
    assert!(is_terminal(GpuJobPhase::Cancelled));
    assert!(!is_terminal(GpuJobPhase::Running));
    assert!(!is_terminal(GpuJobPhase::Pending));
}

#[test]
fn runner_pod_for_a_job() {
    let pod = runner_pod(&job("gpu-attention", ""), &config());
    assert_eq!(pod.types.kind, "Pod");
    assert_eq!(pod.metadata.name, "gpujob-runner-gpu-attention");
    assert_eq!(pod.metadata.namespace, "default");
    assert_eq!(pod.metadata.labels.get("component").unwrap(), "gpujob-runner");
    assert_eq!(pod.metadata.labels.get("gpujob.minik8s.io/name").unwrap(), "gpu-attention");
    assert_eq!(pod.metadata.labels.get("gpujob.minik8s.io/uid").unwrap(), "u1");
    assert_eq!(pod.metadata.owner_references[0].kind, "GPUJob");
    assert!(pod.spec.host_network);
    assert_eq!(pod.spec.restart_policy.as_deref(), Some("Never"));
    assert_eq!(pod.spec.node_selector.get("node-role.kubernetes.io/control-plane").unwrap(), "");
    let c = &pod.spec.containers[0];
    assert_eq!(c.name, "runner");
    assert_eq!(c.image, "minik8s/gpujob-runner:latest");
    assert_eq!(c.command, vec!["gpujob-runner"]);
    assert_eq!(c.args, vec!["--api-server=http://127.0.0.1:8080", "--namespace=", "--name=gpu-attention"]);
    assert_eq!(c.env[0].name, "GPUJOB_NAMESPACE");
    assert_eq!(c.env[0].value, "");
    assert_eq!(c.env[1].name, "GPUJOB_NAME");
    assert_eq!(c.env[1].value, "gpu-attention");
    let mut no_uid = job("x", "ns");
    no_uid.metadata.uid = None;
    let pod = runner_pod(&no_uid, &config());
    assert_eq!(pod.metadata.labels.get("gpujob.minik8s.io/uid"), None);
    assert_eq!(pod.metadata.namespace, "ns");
}

#[test]
fn control_plane_placement() {
    let t = control_plane_toleration();
    assert_eq!(t.len(), 1);
    assert_eq!(t[0].key.as_deref(), Some("node-role.kubernetes.io/control-plane"));
    assert_eq!(t[0].operator, TolerationOperator::Exists);
    assert_eq!(t[0].effect, Some(TaintEffect::NoSchedule));
    assert!(t[0].value.is_none());
    assert_eq!(control_plane_selector().entries().len(), 1);
}

#[test]
fn deleted_job_loses_its_pod() {
    let (step, action) = reconcile_step(ReconcileStep::Start, ReconcileEvent::Begin, &key("", "gone"), None, &config());
    assert_eq!(step, ReconcileStep::DeletingPod);
    match action {
        ReconcileAction::DeletePod { namespace, name } => {
            assert_eq!(namespace, "default");
            assert_eq!(name, "gpujob-runner-gone");
        }
        other => panic!("unexpected {other:?}"),
    }
    let (step, action) = reconcile_step(step, ReconcileEvent::NotFound, &key("", "gone"), None, &config());
    assert_eq!(step, ReconcileStep::Finished);
    assert!(matches!(action, ReconcileAction::Finish));
}

#[test]
fn ended_job_is_left_alone() {
    let mut j = job("a", "ns");
    j.status.phase = GpuJobPhase::Succeeded;
    let (step, action) = reconcile_step(ReconcileStep::Start, ReconcileEvent::Begin, &key("ns", "a"), Some(&j), &config());
    assert_eq!(step, ReconcileStep::Finished);
    assert!(matches!(action, ReconcileAction::Finish));
}

#[test]
fn new_job_gets_pod_and_mark() {
    let j = job("a", "ns");
    let k = key("ns", "a");
    let (step, action) = reconcile_step(ReconcileStep::Start, ReconcileEvent::Begin, &k, Some(&j), &config());
    assert_eq!(step, ReconcileStep::LookingUpPod);
    assert!(matches!(action, ReconcileAction::GetPod { ref name, .. } if name == "gpujob-runner-a"));
    let (step, action) = reconcile_step(step, ReconcileEvent::NotFound, &k, Some(&j), &config());
    assert_eq!(step, ReconcileStep::CreatingPod);
    match action {
        ReconcileAction::CreatePod { pod } => assert_eq!(pod.metadata.name, "gpujob-runner-a"),
        other => panic!("unexpected {other:?}"),
    }
    let (step, action) = reconcile_step(step, ReconcileEvent::Done, &k, Some(&j), &config());
    assert_eq!(step, ReconcileStep::MarkingPod);
    match action {
        ReconcileAction::MarkRunnerPod { namespace, pod_name } => {
            assert_eq!(namespace, "ns");
            assert_eq!(pod_name, "gpujob-runner-a");
        }
        other => panic!("unexpected {other:?}"),
    }
    let (step, action) = reconcile_step(step, ReconcileEvent::Done, &k, Some(&j), &config());
    assert_eq!(step, ReconcileStep::Finished);
    assert!(matches!(action, ReconcileAction::Finish));
}

#[test]
fn marked_running_job_needs_nothing() {
    let mut j = job("a", "ns");
    j.status.runner_pod = "gpujob-runner-a".to_string();
    j.status.phase = GpuJobPhase::Running;
    let k = key("ns", "a");
    let (step, action) = reconcile_step(ReconcileStep::LookingUpPod, ReconcileEvent::Done, &k, Some(&j), &config());
    assert_eq!(step, ReconcileStep::Finished);
    assert!(matches!(action, ReconcileAction::Finish));
    j.status.phase = GpuJobPhase::Pending;
    let (step, _) = reconcile_step(ReconcileStep::LookingUpPod, ReconcileEvent::Done, &k, Some(&j), &config());
    assert_eq!(step, ReconcileStep::MarkingPod);
    j.status.slurm_job_id = "1".to_string();
    let (step, _) = reconcile_step(ReconcileStep::LookingUpPod, ReconcileEvent::Done, &k, Some(&j), &config());
    assert_eq!(step, ReconcileStep::Finished);
}
