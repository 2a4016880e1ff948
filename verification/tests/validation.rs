use gpu_plugin::api::{
    default_one, validate_relative_path, GpuJob, GpuJobSourceFile, HpcCredential,
    ValidationError, API_VERSION, GROUP, VERSION,
};

fn valid_job() -> GpuJob {
    let mut job = GpuJob::default();
    job.metadata.name = "gpu-attention".to_string();
    job.spec.credential_ref.name = "sjtu-hpc".to_string();
    job.spec.hpc.login_host = "login.hpc".to_string();
    job.spec.slurm.partition = "a100".to_string();
    job.spec.slurm.nodes = 1;
    job.spec.slurm.ntasks_per_node = 1;
    job.spec.slurm.cpus_per_task = 1;
    job.spec.slurm.gres = "gpu:1".to_string();
    job.spec.slurm.time = "00:05:00".to_string();
    job.spec.source.files = vec![GpuJobSourceFile {
        path: "attention_demo.cu".to_string(),
        content: String::new(),
        mode: None,
    }];
    job.spec.run.command = "./attention_demo 2 4 256 64 10".to_string();
    job.spec.run.collect = vec!["out/result.txt".to_string()];
    job
}

fn message_of(job: &GpuJob) -> String {
    job.validate_spec().unwrap_err().message()
}

#[test]
fn valid_job_is_accepted() {
    assert_eq!(valid_job().validate_spec(), Ok(()));
}

#[test]
fn blank_required_fields_are_refused_in_order() {
    let mut job = valid_job();
    job.spec.credential_ref.name = " \t".to_string();
    job.spec.hpc.login_host = String::new();
    assert_eq!(message_of(&job), "gpujob spec.credentialRef.name is required");
    let mut job = valid_job();
    job.spec.hpc.login_host = "\n".to_string();
    assert_eq!(message_of(&job), "gpujob spec.hpc.loginHost is required");
    let mut job = valid_job();
    job.spec.slurm.partition = String::new();
    assert_eq!(message_of(&job), "gpujob spec.slurm.partition is required");
    let mut job = valid_job();
    job.spec.slurm.gres = "\u{2003}".to_string();
    assert_eq!(message_of(&job), "gpujob spec.slurm.gres is required");
    let mut job = valid_job();
    job.spec.slurm.time = String::new();
    assert_eq!(message_of(&job), "gpujob spec.slurm.time is required");
    let mut job = valid_job();
    job.spec.run.command = "   ".to_string();
    assert_eq!(message_of(&job), "gpujob spec.run.command is required");
}

#[test]
fn zero_counts_are_refused() {
    for which in 0..3 {
        let mut job = valid_job();
        match which {
            0 => job.spec.slurm.nodes = 0,
            1 => job.spec.slurm.ntasks_per_node = 0,
            _ => job.spec.slurm.cpus_per_task = 0,
        }
        assert_eq!(job.validate_spec(), Err(ValidationError::ResourcesNotPositive));
        assert_eq!(
            message_of(&job),
            "gpujob spec.slurm nodes, ntasksPerNode and cpusPerTask must be greater than 0"
        );
    }
}

#[test]
fn source_files_are_required() {
    let mut job = valid_job();
    job.spec.source.files.clear();
    assert_eq!(job.validate_spec(), Err(ValidationError::NoSourceFiles));
    assert_eq!(message_of(&job), "gpujob spec.source.files must not be empty");
}

#[test]
fn source_paths_must_stay_inside() {
    let mut job = valid_job();
    job.spec.source.files[0].path = " /abs.cu".to_string();
    assert_eq!(
        message_of(&job),
        "gpujob spec.source.files.path must be a relative path inside the job workspace"
    );
    job.spec.source.files[0].path = "a/../b".to_string();
    assert_eq!(
        job.validate_spec(),
        Err(ValidationError::PathOutsideWorkspace("gpujob spec.source.files.path".to_string()))
    );
    job.spec.source.files[0].path = "  ".to_string();
    assert_eq!(message_of(&job), "gpujob spec.source.files.path must not be empty");
}

#[test]
fn source_paths_are_checked_before_the_command() {
    let mut job = valid_job();
    job.spec.source.files[0].path = "..".to_string();
    job.spec.run.command = String::new();
    assert_eq!(
        job.validate_spec(),
        Err(ValidationError::PathOutsideWorkspace("gpujob spec.source.files.path".to_string()))
    );
}

#[test]
fn collect_paths_must_stay_inside() {
    let mut job = valid_job();
    job.spec.run.collect.push("../secret".to_string());
    assert_eq!(
        message_of(&job),
        "gpujob spec.run.collect must be a relative path inside the job workspace"
    );
    let mut job = valid_job();
    job.spec.run.collect = vec!["".to_string()];
    assert_eq!(message_of(&job), "gpujob spec.run.collect must not be empty");
}

#[test]
fn relative_path_check() {
    assert_eq!(validate_relative_path("a/b.txt", "f"), Ok(()));
    assert_eq!(validate_relative_path(" a.b ", "f"), Ok(()));
    assert_eq!(validate_relative_path("", "f"), Err(ValidationError::EmptyPath("f".to_string())));
    assert_eq!(
        validate_relative_path("x..y", "f"),
        Err(ValidationError::PathOutsideWorkspace("f".to_string()))
    );
    assert_eq!(ValidationError::EmptyPath("f".to_string()).message(), "f must not be empty");
}

#[test]
fn credential_validation() {
    let mut c = HpcCredential::default();
    assert_eq!(c.validate_spec().unwrap_err().message(), "hpccredential spec.username is required");
    c.spec.username = "alice".to_string();
    assert_eq!(
        c.validate_spec().unwrap_err().message(),
        "hpccredential spec.password or spec.privateKey is required"
    );
    c.spec.password = "   ".to_string();
    assert!(c.validate_spec().is_err());
    c.spec.private_key = "-----BEGIN KEY-----".to_string();
    assert_eq!(c.validate_spec(), Ok(()));
    assert!(c.uses_private_key());
    assert!(!c.has_known_hosts());
    c.spec.known_hosts = " host ssh-ed25519 AAAA ".to_string();
    assert!(c.has_known_hosts());
}

#[test]
fn password_credential_is_accepted() {
    let mut c = HpcCredential::default();
    c.spec.username = "alice".to_string();
    c.spec.password = "s3cret".to_string();
    c.spec.known_hosts = String::new();
    assert_eq!(c.validate_spec(), Ok(()));
    assert!(!c.uses_private_key());
    c.spec.private_key = "KEY".to_string();
    assert_eq!(c.validate_spec(), Ok(()));
    assert!(c.uses_private_key());
}

#[test]
fn resource_identity() {
    assert_eq!(GpuJob::kind(), "GPUJob");
    assert_eq!(GpuJob::plural(), "gpujobs");
    assert_eq!(GpuJob::group(), "gpu.minik8s.io");
    assert_eq!(GpuJob::version(), "v1alpha1");
    assert_eq!(HpcCredential::kind(), "HPCCredential");
    assert_eq!(HpcCredential::plural(), "hpccredentials");
    assert_eq!(HpcCredential::group(), GROUP);
    assert_eq!(HpcCredential::version(), VERSION);
    assert_eq!(API_VERSION, format!("{GROUP}/{VERSION}"));
    assert_eq!(default_one(), 1);
}

#[test]
fn owner_reference_names_the_job() {
    let mut job = valid_job();
    job.metadata.uid = Some("u-1".to_string());
    let r = job.owner_ref();
    assert_eq!(r.api_version, "gpu.minik8s.io/v1alpha1");
    assert_eq!(r.kind, "GPUJob");
    assert_eq!(r.name, "gpu-attention");
    assert_eq!(r.uid, Some("u-1".to_string()));
    job.metadata_mut().name = "renamed".to_string();
    assert_eq!(job.metadata().name, "renamed");
    job.status_mut().message = "m".to_string();
    assert_eq!(job.status().message, "m");
}
