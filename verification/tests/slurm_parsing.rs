use gpu_plugin::api::GpuJobPhase;
use gpu_plugin::slurm::{
    parse_sacct_line, parse_sbatch_job_id, parse_squeue_line, parse_squeue_output, SlurmJobStatus,
    SlurmTerminalState,
};

fn status_with(state: &str, exit_code: &str) -> SlurmJobStatus {
    SlurmJobStatus {
        state: state.to_string(),
        exit_code: exit_code.to_string(),
        ..SlurmJobStatus::default()
    }
}

#[test]
fn sbatch_output_gives_the_job_id() {
    assert_eq!(parse_sbatch_job_id("Submitted batch job 12345\n"), Some("12345".to_string()));
}

#[test]
fn sbatch_output_without_numeric_id_gives_nothing() {
    assert_eq!(parse_sbatch_job_id("Submitted batch job abc"), None);
    assert_eq!(parse_sbatch_job_id("sbatch: error: invalid partition"), None);
    assert_eq!(parse_sbatch_job_id(""), None);
    assert_eq!(parse_sbatch_job_id("job"), None);
}

#[test]
fn sbatch_output_takes_first_numeric_job_token() {
    assert_eq!(
        parse_sbatch_job_id("job x\n\tjob 77 job 88"),
        Some("77".to_string())
    );
    assert_eq!(parse_sbatch_job_id("job\u{3000}42"), Some("42".to_string()));
}

#[test]
fn squeue_line_with_five_fields() {
    let s = parse_squeue_line("  4242|RUNNING|1:02|10:00|node07  \n").unwrap();
    assert_eq!(s.job_id, "4242");
    assert_eq!(s.state, "RUNNING");
    assert_eq!(s.elapsed, "1:02");
    assert_eq!(s.time_limit, "10:00");
    assert_eq!(s.reason_or_node, "node07");
    assert_eq!(s.exit_code, "");
    assert_eq!(s.max_rss, "");
    assert_eq!(s.req_mem, "");
}

#[test]
fn squeue_line_with_too_few_fields_is_none() {
    assert_eq!(parse_squeue_line("4242|RUNNING|1:02|10:00"), None);
    assert_eq!(parse_squeue_line(""), None);
}

#[test]
fn squeue_output_takes_first_parsable_line() {
    let out = "garbage\n11|PENDING|0:00|1:00:00|(AssocGrpGRES)\n12|RUNNING|0:01|1:00:00|n1\n";
    let s = parse_squeue_output(out).unwrap();
    assert_eq!(s.job_id, "11");
    assert_eq!(s.state, "PENDING");
    assert_eq!(s.reason_or_node, "(AssocGrpGRES)");
    assert_eq!(parse_squeue_output(""), None);
    assert_eq!(parse_squeue_output("\n\n"), None);
}

#[test]
fn sacct_line_for_the_job() {
    let out = "99|FAILED|1:0|00:00:03|10K|4G\n123|CANCELLED+|0:15|00:01:00|2048K|8G\n";
    let s = parse_sacct_line(out, "123");
    assert_eq!(s.job_id, "123");
    assert_eq!(s.state, "CANCELLED");
    assert_eq!(s.exit_code, "0:15");
    assert_eq!(s.elapsed, "00:01:00");
    assert_eq!(s.max_rss, "2048K");
    assert_eq!(s.req_mem, "8G");
    assert_eq!(s.time_limit, "");
    assert_eq!(s.reason_or_node, "");
}

#[test]
fn sacct_handles_crlf_lines() {
    let out = "7|COMPLETED|0:0|00:00:10||1G\r\n";
    let s = parse_sacct_line(out, "7");
    assert_eq!(s.state, "COMPLETED");
    assert_eq!(s.req_mem, "1G");
}

#[test]
fn sacct_without_the_job_is_unknown() {
    let s = parse_sacct_line("1|COMPLETED|0:0|00:00:01|1K\n", "1");
    assert_eq!(s.job_id, "1");
    assert_eq!(s.state, "UNKNOWN");
    assert_eq!(s.exit_code, "");
    let s = parse_sacct_line("", "55");
    assert_eq!(s.job_id, "55");
    assert_eq!(s.state, "UNKNOWN");
    assert_eq!(s.terminal_state(), SlurmTerminalState::Unknown);
}

#[test]
fn terminal_states() {
    assert_eq!(status_with("COMPLETED", "0:0").terminal_state(), SlurmTerminalState::Succeeded);
    assert_eq!(status_with("COMPLETED", "").terminal_state(), SlurmTerminalState::Succeeded);
    assert_eq!(status_with("COMPLETED", "1:0").terminal_state(), SlurmTerminalState::Unknown);
    assert_eq!(status_with("CANCELLED", "").terminal_state(), SlurmTerminalState::Cancelled);
    assert_eq!(status_with("CANCELLED+", "").terminal_state(), SlurmTerminalState::Cancelled);
    for failed in ["FAILED", "OUT_OF_MEMORY", "TIMEOUT", "NODE_FAIL", "PREEMPTED"] {
        assert_eq!(status_with(failed, "").terminal_state(), SlurmTerminalState::Failed);
    }
    assert_eq!(status_with("RUNNING", "").terminal_state(), SlurmTerminalState::Unknown);
    assert_eq!(status_with("", "").terminal_state(), SlurmTerminalState::Unknown);
}

#[test]
fn phases_follow_terminal_states() {
    assert_eq!(status_with("COMPLETED", "0:0").phase(), GpuJobPhase::Succeeded);
    assert_eq!(status_with("TIMEOUT", "0:0").phase(), GpuJobPhase::Failed);
    assert_eq!(status_with("CANCELLED", "").phase(), GpuJobPhase::Cancelled);
    assert_eq!(status_with("PENDING", "").phase(), GpuJobPhase::Running);
}

#[test]
fn reasons_from_the_failure_table() {
    assert_eq!(status_with("OUT_OF_MEMORY", "").reason(), "OutOfMemory");
    assert_eq!(status_with("TIMEOUT", "").reason(), "TimeLimitExceeded");
    assert_eq!(status_with("CANCELLED", "").reason(), "Cancelled");
    assert_eq!(status_with("CANCELLED+", "").reason(), "Cancelled");
    assert_eq!(status_with("COMPLETED", "").reason(), "");
    assert_eq!(status_with("FAILED", "").reason(), "RuntimeFailed");
    assert_eq!(status_with("NODE_FAIL", "").reason(), "NodeFailed");
    assert_eq!(status_with("PREEMPTED", "").reason(), "Preempted");
    assert_eq!(status_with("", "").reason(), "Unknown");
    assert_eq!(status_with("BOOT_FAIL", "").reason(), "BOOT_FAIL");
}

#[test]
fn failure_table_oom_is_failed_out_of_memory() {
    let s = status_with("OUT_OF_MEMORY", "0:125");
    assert_eq!(s.phase(), GpuJobPhase::Failed);
    assert_eq!(s.reason(), "OutOfMemory");
}

#[test]
fn status_copy_keeps_every_field() {
    let s = parse_sacct_line("5|TIMEOUT|0:1|01:00:00|5K|2G", "5");
    assert_eq!(s.copy(), s);
}
