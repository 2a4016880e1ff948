use gpu_plugin::api::{GpuJob, GpuJobSourceFile};
use gpu_plugin::slurm::render_script;
use gpu_plugin::workspace::{
    join_path, parse_file_mode, remote_work_dir, safe_child_path, sanitize, workspace_root,
    JobWorkspace, PathError,
};

fn sample_job() -> GpuJob {
    let mut job = GpuJob::default();
    job.metadata.name = "gpu-matrix".to_string();
    job.metadata.namespace = "default".to_string();
    job.metadata.uid = Some("1f2e-33".to_string());
    job.spec.credential_ref.name = "sjtu-hpc".to_string();
    job.spec.hpc.login_host = "pilogin.hpc.sjtu.edu.cn".to_string();
    job.spec.slurm.partition = "dgx2".to_string();
    job.spec.slurm.nodes = 1;
    job.spec.slurm.ntasks_per_node = 1;
    job.spec.slurm.cpus_per_task = 6;
    job.spec.slurm.gres = "gpu:1".to_string();
    job.spec.slurm.time = "00:10:00".to_string();
    job.spec.slurm.modules = vec!["cuda/12.1".to_string()];
    job.spec.source.files = vec![GpuJobSourceFile {
        path: "build.sh".to_string(),
        content: "nvcc main.cu".to_string(),
        mode: Some("0755".to_string()),
    }];
    job.spec.run.command = "./matrix_ops".to_string();
    job
}

#[test]
fn script_for_a_plain_job() {
    let job = sample_job();
    let expected = "#!/bin/bash\n\
#SBATCH --job-name=gpu-matrix\n\
#SBATCH --partition=dgx2\n\
#SBATCH --nodes=1\n\
#SBATCH --ntasks-per-node=1\n\
#SBATCH --cpus-per-task=6\n\
#SBATCH --gres=gpu:1\n\
#SBATCH --time=00:10:00\n\
\n\
set -euo pipefail\n\
\n\
module load cuda/12.1\n\
\n\
echo \"[minik8s] build started\"\n\
bash build.sh\n\
\n\
echo \"[minik8s] run started\"\n\
./matrix_ops\n\
\n\
echo \"[minik8s] completed\"\n";
    assert_eq!(render_script(&job), expected);
}

#[test]
fn script_with_optional_directives() {
    let mut job = sample_job();
    job.spec.slurm.qos = Some("normal".to_string());
    job.spec.slurm.output = Some("".to_string());
    job.spec.slurm.error = Some("err-%j.log".to_string());
    job.spec.slurm.nodes = 1234567890;
    job.spec.slurm.modules = vec![];
    let script = render_script(&job);
    assert!(script.contains("#SBATCH --nodes=1234567890\n"));
    assert!(script.contains("#SBATCH --time=00:10:00\n#SBATCH --qos=normal\n#SBATCH --error=err-%j.log\n\nset -euo pipefail\n\n\necho"));
    assert!(!script.contains("--output"));
    assert!(script.starts_with("#!/bin/bash\n"));
    assert!(script.ends_with("\n"));
}

#[test]
fn script_with_account() {
    let mut job = sample_job();
    job.spec.slurm.account = Some("acct".to_string());
    let script = render_script(&job);
    assert!(script.split('\n').any(|l| l == "#SBATCH --account=acct"));
    job.spec.slurm.qos = Some("normal".to_string());
    let script = render_script(&job);
    assert!(script.contains("#SBATCH --account=acct\n#SBATCH --qos=normal\n"));
    job.spec.slurm.account = Some(String::new());
    assert!(!render_script(&job).contains("--account"));
}

#[test]
fn remote_work_dir_is_sanitized() {
    let job = sample_job();
    assert_eq!(remote_work_dir(&job), "~/minik8s-gpujobs/default-gpu-matrix-1f2e-33");
    let mut odd = sample_job();
    odd.metadata.namespace = String::new();
    odd.metadata.name = "a b;rm".to_string();
    odd.metadata.uid = None;
    assert_eq!(remote_work_dir(&odd), "~/minik8s-gpujobs/default-a-b-rm-a-b-rm");
}

#[test]
fn sanitize_replaces_unsafe_characters() {
    assert_eq!(sanitize("ok-_.AZ09"), "ok-_.AZ09");
    assert_eq!(sanitize("a/b c$é"), "a-b-c--");
    assert_eq!(sanitize(""), "");
}

#[test]
fn workspace_paths() {
    let job = sample_job();
    let root = workspace_root("/tmp", &job);
    assert_eq!(root, "/tmp/minik8s-gpujob-gpu-matrix-1f2e-33");
    assert_eq!(workspace_root("/tmp/", &job), "/tmp/minik8s-gpujob-gpu-matrix-1f2e-33");
    let ws = JobWorkspace::at(root);
    assert_eq!(ws.root(), "/tmp/minik8s-gpujob-gpu-matrix-1f2e-33");
    assert_eq!(ws.ssh_dir(), "/tmp/minik8s-gpujob-gpu-matrix-1f2e-33/.ssh");
    assert_eq!(ws.private_key_path(), "/tmp/minik8s-gpujob-gpu-matrix-1f2e-33/.ssh/id_ed25519");
    assert_eq!(ws.known_hosts_path(), "/tmp/minik8s-gpujob-gpu-matrix-1f2e-33/.ssh/known_hosts");
    assert_eq!(ws.slurm_script_path(), "/tmp/minik8s-gpujob-gpu-matrix-1f2e-33/job.slurm");
}

#[test]
fn join_path_follows_path_join() {
    assert_eq!(join_path("a", "b"), "a/b");
    assert_eq!(join_path("a/", "b"), "a/b");
    assert_eq!(join_path("", "b"), "b");
    assert_eq!(join_path("a", "/etc"), "/etc");
    for (base, part) in [("x/y", "z"), ("/", "q"), ("w", "")] {
        let expected = std::path::Path::new(base).join(part);
        assert_eq!(join_path(base, part), expected.to_str().unwrap());
    }
}

#[test]
fn safe_child_path_accepts_relative_paths() {
    assert_eq!(safe_child_path("/w", "src/main.cu").unwrap(), "/w/src/main.cu");
    assert_eq!(safe_child_path("/w", "./a//b/./c/").unwrap(), "/w/a/b/c");
    assert_eq!(safe_child_path("/w", "").unwrap(), "/w");
    assert_eq!(safe_child_path("/w", "a...b").unwrap(), "/w/a...b");
    for rel in ["src/main.cu", "./a//b/./c/", "results/slurm-1.out", "a...b"] {
        let expected = std::path::Path::new("/w").join(rel);
        let mut normalized = std::path::PathBuf::from("/w");
        for c in expected.strip_prefix("/w").unwrap().components() {
            if let std::path::Component::Normal(p) = c {
                normalized.push(p);
            }
        }
        assert_eq!(safe_child_path("/w", rel).unwrap(), normalized.to_str().unwrap());
    }
}

#[test]
fn safe_child_path_refuses_escapes() {
    assert_eq!(
        safe_child_path("/w", "/etc/passwd"),
        Err(PathError::NotRelative("/etc/passwd".to_string()))
    );
    assert_eq!(
        safe_child_path("/w", "a/../../b"),
        Err(PathError::EscapesWorkspace("a/../../b".to_string()))
    );
    assert_eq!(
        PathError::NotRelative("/x".to_string()).message(),
        "path /x must be relative"
    );
    assert_eq!(
        PathError::EscapesWorkspace("..".to_string()).message(),
        "path .. must not escape workspace"
    );
}

#[test]
fn file_modes() {
    assert_eq!(parse_file_mode("0755"), Some(0o755));
    assert_eq!(parse_file_mode("0600"), Some(0o600));
    assert_eq!(parse_file_mode("644"), Some(0o644));
    assert_eq!(parse_file_mode("+7"), Some(7));
    assert_eq!(parse_file_mode("0"), None);
    assert_eq!(parse_file_mode(""), None);
    assert_eq!(parse_file_mode("0+"), None);
    assert_eq!(parse_file_mode("0789"), None);
    assert_eq!(parse_file_mode("-7"), None);
    assert_eq!(parse_file_mode("37777777777"), Some(u32::MAX));
    assert_eq!(parse_file_mode("40000000000"), None);
    for m in ["0755", "0", "17", "+17", "99", "40000000000", "0001"] {
        let expected = u32::from_str_radix(m.trim_start_matches('0'), 8).ok();
        assert_eq!(parse_file_mode(m), expected, "mode {m}");
    }
}
