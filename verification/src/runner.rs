use vstd::prelude::*;

use crate::api::{GpuJob, GpuJobPhase};
use crate::slurm::{
    empty_slurm_status, job_id_scan, parse_sbatch_job_id, render_script, script_of,
    terminal_state_of, SlurmJobStatus, SlurmJobStatusView, SlurmTerminalState,
};
use crate::ssh::{submit_command, CollectedOutputs};
use crate::strmap::StringMap;
use crate::text::tokens;
use crate::workspace::{remote_work_dir, remote_work_dir_of};

verus! {

/// Where a run of a job stands.
#[derive(Debug, Clone, Copy, PartialEq, Eq, Structural)]
pub enum RunStep {
    Start,
    Preparing,
    LoadingCredential,
    PreparingWorkspace,
    PrintingScript,
    FinishingDryRun,
    Uploading,
    CreatingRemoteDir,
    UploadingWorkspace,
    Submitting,
    RecordingSubmission,
    QueryingQueue,
    ReportingProgress,
    Waiting,
    QueryingAccounting,
    CollectingOutputs,
    StoringResults,
    Finishing,
    ReportingFailure,
    Exited,
}

/// What came of the last action.
#[derive(Debug)]
pub enum RunEvent {
    /// The run begins.
    Begin,
    /// The action succeeded.
    Done,
    /// What the submit command printed.
    CommandOutput(String),
    /// What `squeue` said of the job: nothing once it left the queue.
    Queue(Option<SlurmJobStatus>),
    /// What `sacct` said of the job.
    Accounting(SlurmJobStatus),
    /// The job's outputs were fetched.
    Collected(CollectedOutputs),
    /// The results were stored under this config map name (empty: none).
    Stored(String),
    /// The action failed with this message.
    Failed(String),
}

/// What the runner does next.
#[derive(Debug)]
pub enum RunAction {
    /// Report a phase and message in the job's status.
    SetPhase { phase: GpuJobPhase, message: String },
    /// Read the named credential.
    LoadCredential { name: String },
    /// Make the local workspace: sources, this batch script, SSH files.
    PrepareWorkspace { script: String },
    /// Print the batch script.
    PrintScript { script: String },
    /// Make the job directory on the login node.
    CreateRemoteDir { remote_dir: String },
    /// Copy the workspace into the job directory.
    UploadWorkspace { remote_dir: String },
    /// Run this command on the login node and report what it printed.
    Submit { command: String },
    /// Report the submitted job in the status.
    RecordSubmission { job_id: String, remote_dir: String },
    /// Ask `squeue` about the job.
    QueryQueue { job_id: String },
    /// Report the queued or running job in the status.
    ReportProgress { status: SlurmJobStatus },
    /// Wait before asking again.
    Sleep { seconds: u64 },
    /// Ask `sacct` about the job.
    QueryAccounting { job_id: String },
    /// Fetch the job's outputs.
    CollectOutputs { remote_dir: String, job_id: String },
    /// Store the fetched files.
    StoreResults { job_id: String, files: StringMap },
    /// Report how the job ended.
    Finish {
        status: SlurmJobStatus,
        stdout_tail: String,
        stderr_tail: String,
        result_config_map: String,
    },
    /// Report the job as failed.
    ReportFailure { reason: String, message: String },
    /// Stop, with the error that ended the run, if any.
    Exit { error: Option<String> },
}

/// One run of a job, from preparing its workspace to reporting how it ended.
#[derive(Debug)]
pub struct GpuJobRun {
    step: RunStep,
    dry_run: bool,
    poll_seconds: u64,
    credential_name: String,
    script: String,
    remote_dir: String,
    job_id: String,
    terminal: SlurmJobStatus,
    stdout_tail: String,
    stderr_tail: String,
    error: Option<String>,
}

pub struct RunView {
    pub step: RunStep,
    pub dry_run: bool,
    pub poll_seconds: u64,
    pub credential_name: Seq<char>,
    pub script: Seq<char>,
    pub remote_dir: Seq<char>,
    pub job_id: Seq<char>,
    pub terminal: SlurmJobStatusView,
    pub stdout_tail: Seq<char>,
    pub stderr_tail: Seq<char>,
    pub error: Option<Seq<char>>,
}

pub enum RunEventView {
    Begin,
    Done,
    CommandOutput(Seq<char>),
    Queue(Option<SlurmJobStatusView>),
    Accounting(SlurmJobStatusView),
    Collected { files: Map<Seq<char>, Seq<char>>, stdout_tail: Seq<char>, stderr_tail: Seq<char> },
    Stored(Seq<char>),
    Failed(Seq<char>),
}

pub enum RunActionView {
    SetPhase { phase: GpuJobPhase, message: Seq<char> },
    LoadCredential { name: Seq<char> },
    PrepareWorkspace { script: Seq<char> },
    PrintScript { script: Seq<char> },
    CreateRemoteDir { remote_dir: Seq<char> },
    UploadWorkspace { remote_dir: Seq<char> },
    Submit { command: Seq<char> },
    RecordSubmission { job_id: Seq<char>, remote_dir: Seq<char> },
    QueryQueue { job_id: Seq<char> },
    ReportProgress { status: SlurmJobStatusView },
    Sleep { seconds: u64 },
    QueryAccounting { job_id: Seq<char> },
    CollectOutputs { remote_dir: Seq<char>, job_id: Seq<char> },
    StoreResults { job_id: Seq<char>, files: Map<Seq<char>, Seq<char>> },
    Finish {
        status: SlurmJobStatusView,
        stdout_tail: Seq<char>,
        stderr_tail: Seq<char>,
        result_config_map: Seq<char>,
    },
    ReportFailure { reason: Seq<char>, message: Seq<char> },
    Exit { error: Option<Seq<char>> },
}

pub open spec fn opt_str_view(o: Option<String>) -> Option<Seq<char>> {
    match o {
        Some(s) => Some(s@),
        None => None,
    }
}

impl View for GpuJobRun {
    type V = RunView;

    closed spec fn view(&self) -> RunView {
        RunView {
            step: self.step,
            dry_run: self.dry_run,
            poll_seconds: self.poll_seconds,
            credential_name: self.credential_name@,
            script: self.script@,
            remote_dir: self.remote_dir@,
            job_id: self.job_id@,
            terminal: self.terminal@,
            stdout_tail: self.stdout_tail@,
            stderr_tail: self.stderr_tail@,
            error: opt_str_view(self.error),
        }
    }
}

impl View for RunEvent {
    type V = RunEventView;

    open spec fn view(&self) -> RunEventView {
        match self {
            RunEvent::Begin => RunEventView::Begin,
            RunEvent::Done => RunEventView::Done,
            RunEvent::CommandOutput(o) => RunEventView::CommandOutput(o@),
            RunEvent::Queue(q) => RunEventView::Queue(
                match q {
                    Some(s) => Some(s@),
                    None => None,
                },
            ),
            RunEvent::Accounting(s) => RunEventView::Accounting(s@),
            RunEvent::Collected(c) => RunEventView::Collected {
                files: c.files@,
                stdout_tail: c.stdout_tail@,
                stderr_tail: c.stderr_tail@,
            },
            RunEvent::Stored(n) => RunEventView::Stored(n@),
            RunEvent::Failed(m) => RunEventView::Failed(m@),
        }
    }
}

impl View for RunAction {
    type V = RunActionView;

    open spec fn view(&self) -> RunActionView {
        match self {
            RunAction::SetPhase { phase, message } => RunActionView::SetPhase {
                phase: *phase,
                message: message@,
            },
            RunAction::LoadCredential { name } => RunActionView::LoadCredential { name: name@ },
            RunAction::PrepareWorkspace { script } => RunActionView::PrepareWorkspace {
                script: script@,
            },
            RunAction::PrintScript { script } => RunActionView::PrintScript { script: script@ },
            RunAction::CreateRemoteDir { remote_dir } => RunActionView::CreateRemoteDir {
                remote_dir: remote_dir@,
            },
            RunAction::UploadWorkspace { remote_dir } => RunActionView::UploadWorkspace {
                remote_dir: remote_dir@,
            },
            RunAction::Submit { command } => RunActionView::Submit { command: command@ },
            RunAction::RecordSubmission { job_id, remote_dir } => RunActionView::RecordSubmission {
                job_id: job_id@,
                remote_dir: remote_dir@,
            },
            RunAction::QueryQueue { job_id } => RunActionView::QueryQueue { job_id: job_id@ },
            RunAction::ReportProgress { status } => RunActionView::ReportProgress {
                status: status@,
            },
            RunAction::Sleep { seconds } => RunActionView::Sleep { seconds: *seconds },
            RunAction::QueryAccounting { job_id } => RunActionView::QueryAccounting {
                job_id: job_id@,
            },
            RunAction::CollectOutputs { remote_dir, job_id } => RunActionView::CollectOutputs {
                remote_dir: remote_dir@,
                job_id: job_id@,
            },
            RunAction::StoreResults { job_id, files } => RunActionView::StoreResults {
                job_id: job_id@,
                files: files@,
            },
            RunAction::Finish { status, stdout_tail, stderr_tail, result_config_map } =>
                RunActionView::Finish {
                status: status@,
                stdout_tail: stdout_tail@,
                stderr_tail: stderr_tail@,
                result_config_map: result_config_map@,
            },
            RunAction::ReportFailure { reason, message } => RunActionView::ReportFailure {
                reason: reason@,
                message: message@,
            },
            RunAction::Exit { error } => RunActionView::Exit { error: opt_str_view(*error) },
        }
    }
}

/// The run of `job` before it begins.
pub open spec fn initial_run(job: GpuJob, dry_run: bool, poll_seconds: u64) -> RunView {
    RunView {
        step: RunStep::Start,
        dry_run: dry_run,
        poll_seconds: poll_seconds,
        credential_name: job.spec.credential_ref.name@,
        script: script_of(job),
        remote_dir: remote_work_dir_of(job),
        job_id: Seq::empty(),
        terminal: empty_slurm_status(),
        stdout_tail: Seq::empty(),
        stderr_tail: Seq::empty(),
        error: None,
    }
}

/// The events that a step waits for. A step that acts can also fail; once the
/// run reports a failure or has exited, any event moves it on.
pub open spec fn accepts(step: RunStep, e: RunEventView) -> bool {
    match step {
        RunStep::ReportingFailure | RunStep::Exited => true,
        _ => e is Failed || match step {
            RunStep::Start => e is Begin,
            RunStep::Submitting => e is CommandOutput,
            RunStep::QueryingQueue => e is Queue,
            RunStep::QueryingAccounting => e is Accounting,
            RunStep::CollectingOutputs => e is Collected,
            RunStep::StoringResults => e is Stored,
            _ => e is Done,
        },
    }
}

/// What a failure of the step's action is reported as: the step's context,
/// then the cause.
pub open spec fn failure_message(step: RunStep, cause: Seq<char>) -> Seq<char> {
    match step {
        RunStep::LoadingCredential => "failed to read HPCCredential: "@ + cause,
        RunStep::Submitting => "sbatch failed: "@ + cause,
        _ => cause,
    }
}

pub open spec fn fail_run(s: RunView, message: Seq<char>) -> (RunView, RunActionView) {
    (
        RunView { step: RunStep::ReportingFailure, error: Some(message), ..s },
        RunActionView::ReportFailure { reason: "RunnerFailed"@, message: message },
    )
}

pub open spec fn goto(s: RunView, step: RunStep, a: RunActionView) -> (RunView, RunActionView) {
    (RunView { step: step, ..s }, a)
}

/// The run's decisions: prepare the workspace; on a dry run print the script
/// and succeed; otherwise upload, submit, poll `squeue` until the job leaves
/// the queue and `sacct` until it has ended, fetch and store its outputs and
/// report how it ended. Any failure is reported before the run exits.
pub open spec fn run_next(s: RunView, e: RunEventView) -> (RunView, RunActionView) {
    match s.step {
        RunStep::Exited => (s, RunActionView::Exit { error: s.error }),
        RunStep::ReportingFailure => goto(s, RunStep::Exited, RunActionView::Exit { error: s.error }),
        _ => match e {
            RunEventView::Failed(cause) => fail_run(s, failure_message(s.step, cause)),
            _ => match s.step {
                RunStep::Start => goto(
                    s,
                    RunStep::Preparing,
                    RunActionView::SetPhase {
                        phase: GpuJobPhase::Preparing,
                        message: "preparing local workspace"@,
                    },
                ),
                RunStep::Preparing => goto(
                    s,
                    RunStep::LoadingCredential,
                    RunActionView::LoadCredential { name: s.credential_name },
                ),
                RunStep::LoadingCredential => goto(
                    s,
                    RunStep::PreparingWorkspace,
                    RunActionView::PrepareWorkspace { script: s.script },
                ),
                RunStep::PreparingWorkspace => if s.dry_run {
                    goto(s, RunStep::PrintingScript, RunActionView::PrintScript { script: s.script })
                } else {
                    goto(
                        s,
                        RunStep::Uploading,
                        RunActionView::SetPhase {
                            phase: GpuJobPhase::Uploading,
                            message: "uploading workspace to HPC"@,
                        },
                    )
                },
                RunStep::PrintingScript => goto(
                    s,
                    RunStep::FinishingDryRun,
                    RunActionView::SetPhase {
                        phase: GpuJobPhase::Succeeded,
                        message: "dry-run completed; Slurm script generated"@,
                    },
                ),
                RunStep::FinishingDryRun => goto(
                    s,
                    RunStep::Exited,
                    RunActionView::Exit { error: None },
                ),
                RunStep::Uploading => goto(
                    s,
                    RunStep::CreatingRemoteDir,
                    RunActionView::CreateRemoteDir { remote_dir: s.remote_dir },
                ),
                RunStep::CreatingRemoteDir => goto(
                    s,
                    RunStep::UploadingWorkspace,
                    RunActionView::UploadWorkspace { remote_dir: s.remote_dir },
                ),
                RunStep::UploadingWorkspace => goto(
                    s,
                    RunStep::Submitting,
                    RunActionView::Submit {
                        command: "cd "@ + s.remote_dir + " && sbatch job.slurm"@,
                    },
                ),
                RunStep::Submitting => match e {
                    RunEventView::CommandOutput(out) => match job_id_scan(tokens(out)) {
                        Some(id) => (
                            RunView { step: RunStep::RecordingSubmission, job_id: id, ..s },
                            RunActionView::RecordSubmission { job_id: id, remote_dir: s.remote_dir },
                        ),
                        None => fail_run(s, "failed to parse sbatch output: "@ + out),
                    },
                    _ => (s, RunActionView::Exit { error: s.error }),
                },
                RunStep::RecordingSubmission => goto(
                    s,
                    RunStep::QueryingQueue,
                    RunActionView::QueryQueue { job_id: s.job_id },
                ),
                RunStep::QueryingQueue => match e {
                    RunEventView::Queue(Some(st)) => goto(
                        s,
                        RunStep::ReportingProgress,
                        RunActionView::ReportProgress { status: st },
                    ),
                    RunEventView::Queue(None) => goto(
                        s,
                        RunStep::QueryingAccounting,
                        RunActionView::QueryAccounting { job_id: s.job_id },
                    ),
                    _ => (s, RunActionView::Exit { error: s.error }),
                },
                RunStep::ReportingProgress => goto(
                    s,
                    RunStep::Waiting,
                    RunActionView::Sleep { seconds: s.poll_seconds },
                ),
                RunStep::Waiting => goto(
                    s,
                    RunStep::QueryingQueue,
                    RunActionView::QueryQueue { job_id: s.job_id },
                ),
                RunStep::QueryingAccounting => match e {
                    RunEventView::Accounting(st) => if terminal_state_of(st)
                        == SlurmTerminalState::Unknown {
                        goto(s, RunStep::Waiting, RunActionView::Sleep { seconds: s.poll_seconds })
                    } else {
                        (
                            RunView { step: RunStep::CollectingOutputs, terminal: st, ..s },
                            RunActionView::CollectOutputs {
                                remote_dir: s.remote_dir,
                                job_id: s.job_id,
                            },
                        )
                    },
                    _ => (s, RunActionView::Exit { error: s.error }),
                },
                RunStep::CollectingOutputs => match e {
                    RunEventView::Collected { files, stdout_tail, stderr_tail } => (
                        RunView {
                            step: RunStep::StoringResults,
                            stdout_tail: stdout_tail,
                            stderr_tail: stderr_tail,
                            ..s
                        },
                        RunActionView::StoreResults { job_id: s.job_id, files: files },
                    ),
                    _ => (s, RunActionView::Exit { error: s.error }),
                },
                RunStep::StoringResults => match e {
                    RunEventView::Stored(name) => goto(
                        s,
                        RunStep::Finishing,
                        RunActionView::Finish {
                            status: s.terminal,
                            stdout_tail: s.stdout_tail,
                            stderr_tail: s.stderr_tail,
                            result_config_map: name,
                        },
                    ),
                    _ => (s, RunActionView::Exit { error: s.error }),
                },
                RunStep::Finishing => goto(s, RunStep::Exited, RunActionView::Exit { error: None }),
                _ => (s, RunActionView::Exit { error: s.error }),
            },
        },
    }
}

fn copy_opt_string(o: &Option<String>) -> (r: Option<String>)
    ensures
        opt_str_view(r) == opt_str_view(*o),
{
    match o {
        Some(s) => Some(s.clone()),
        None => None,
    }
}

impl GpuJobRun {
    /// A run of `gpujob`; a dry run only prepares the workspace and prints
    /// the script.
    pub fn new(gpujob: &GpuJob, dry_run: bool, poll_seconds: u64) -> (r: GpuJobRun)
        ensures
            r@ == initial_run(*gpujob, dry_run, poll_seconds),
    {
        GpuJobRun {
            step: RunStep::Start,
            dry_run,
            poll_seconds,
            credential_name: gpujob.spec.credential_ref.name.clone(),
            script: render_script(gpujob),
            remote_dir: remote_work_dir(gpujob),
            job_id: String::new(),
            terminal: SlurmJobStatus::default(),
            stdout_tail: String::new(),
            stderr_tail: String::new(),
            error: None,
        }
    }

    /// Where the run stands.
    pub fn step_kind(&self) -> (r: RunStep)
        ensures
            r == self@.step,
    {
        self.step
    }

    /// Whether the run waits for `event` now.
    pub fn accepts(&self, event: &RunEvent) -> (r: bool)
        ensures
            r == accepts(self@.step, event@),
    {
        match self.step {
            RunStep::ReportingFailure | RunStep::Exited => true,
            _ => {
                if let RunEvent::Failed(_) = event {
                    true
                } else {
                    match self.step {
                        RunStep::Start => matches!(event, RunEvent::Begin),
                        RunStep::Submitting => matches!(event, RunEvent::CommandOutput(_)),
                        RunStep::QueryingQueue => matches!(event, RunEvent::Queue(_)),
                        RunStep::QueryingAccounting => matches!(event, RunEvent::Accounting(_)),
                        RunStep::CollectingOutputs => matches!(event, RunEvent::Collected(_)),
                        RunStep::StoringResults => matches!(event, RunEvent::Stored(_)),
                        _ => matches!(event, RunEvent::Done),
                    }
                }
            },
        }
    }

    fn exit_action(&self) -> (a: RunAction)
        ensures
            a@ == (RunActionView::Exit { error: self@.error }),
    {
        RunAction::Exit { error: copy_opt_string(&self.error) }
    }

    fn moved(self, step: RunStep) -> (r: GpuJobRun)
        ensures
            r@ == (RunView { step: step, ..self@ }),
    {
        GpuJobRun { step, ..self }
    }

    fn failed(self, message: String) -> (r: (GpuJobRun, RunAction))
        ensures
            (r.0@, r.1@) == fail_run(self@, message@),
    {
        let m2 = message.clone();
        (
            GpuJobRun { step: RunStep::ReportingFailure, error: Some(message), ..self },
            RunAction::ReportFailure { reason: String::from_str("RunnerFailed"), message: m2 },
        )
    }

    /// Takes what came of the last action and decides the next one.
    pub fn step(self, event: RunEvent) -> (r: (GpuJobRun, RunAction))
        requires
            accepts(self@.step, event@),
        ensures
            (r.0@, r.1@) == run_next(self@, event@),
    {
        match self.step {
            RunStep::Exited => {
                let a = self.exit_action();
                return (self, a);
            },
            RunStep::ReportingFailure => {
                let a = self.exit_action();
                return (self.moved(RunStep::Exited), a);
            },
            _ => {},
        }
        match event {
            RunEvent::Failed(cause) => {
                let message = match self.step {
                    RunStep::LoadingCredential => String::from_str(
                        "failed to read HPCCredential: ",
                    ).concat(cause.as_str()),
                    RunStep::Submitting => String::from_str("sbatch failed: ").concat(
                        cause.as_str(),
                    ),
                    _ => cause,
                };
                self.failed(message)
            },
            RunEvent::CommandOutput(out) => {
                match parse_sbatch_job_id(out.as_str()) {
                    Some(id) => {
                        let a = RunAction::RecordSubmission {
                            job_id: id.clone(),
                            remote_dir: self.remote_dir.clone(),
                        };
                        (GpuJobRun { step: RunStep::RecordingSubmission, job_id: id, ..self }, a)
                    },
                    None => {
                        let message = String::from_str("failed to parse sbatch output: ").concat(
                            out.as_str(),
                        );
                        self.failed(message)
                    },
                }
            },
            RunEvent::Queue(q) => match q {
                Some(st) => (
                    self.moved(RunStep::ReportingProgress),
                    RunAction::ReportProgress { status: st },
                ),
                None => {
                    let a = RunAction::QueryAccounting { job_id: self.job_id.clone() };
                    (self.moved(RunStep::QueryingAccounting), a)
                },
            },
            RunEvent::Accounting(st) => {
                if st.terminal_state() == SlurmTerminalState::Unknown {
                    let a = RunAction::Sleep { seconds: self.poll_seconds };
                    (self.moved(RunStep::Waiting), a)
                } else {
                    let a = RunAction::CollectOutputs {
                        remote_dir: self.remote_dir.clone(),
                        job_id: self.job_id.clone(),
                    };
                    (GpuJobRun { step: RunStep::CollectingOutputs, terminal: st, ..self }, a)
                }
            },
            RunEvent::Collected(outputs) => {
                let CollectedOutputs { files, stdout_tail, stderr_tail } = outputs;
                let a = RunAction::StoreResults { job_id: self.job_id.clone(), files };
                (
                    GpuJobRun {
                        step: RunStep::StoringResults,
                        stdout_tail,
                        stderr_tail,
                        ..self
                    },
                    a,
                )
            },
            RunEvent::Stored(name) => {
                let a = RunAction::Finish {
                    status: self.terminal.copy(),
                    stdout_tail: self.stdout_tail.clone(),
                    stderr_tail: self.stderr_tail.clone(),
                    result_config_map: name,
                };
                (self.moved(RunStep::Finishing), a)
            },
            RunEvent::Begin | RunEvent::Done => {
                match self.step {
                    RunStep::Start => (
                        self.moved(RunStep::Preparing),
                        RunAction::SetPhase {
                            phase: GpuJobPhase::Preparing,
                            message: String::from_str("preparing local workspace"),
                        },
                    ),
                    RunStep::Preparing => {
                        let a = RunAction::LoadCredential { name: self.credential_name.clone() };
                        (self.moved(RunStep::LoadingCredential), a)
                    },
                    RunStep::LoadingCredential => {
                        let a = RunAction::PrepareWorkspace { script: self.script.clone() };
                        (self.moved(RunStep::PreparingWorkspace), a)
                    },
                    RunStep::PreparingWorkspace => {
                        if self.dry_run {
                            let a = RunAction::PrintScript { script: self.script.clone() };
                            (self.moved(RunStep::PrintingScript), a)
                        } else {
                            (
                                self.moved(RunStep::Uploading),
                                RunAction::SetPhase {
                                    phase: GpuJobPhase::Uploading,
                                    message: String::from_str("uploading workspace to HPC"),
                                },
                            )
                        }
                    },
                    RunStep::PrintingScript => (
                        self.moved(RunStep::FinishingDryRun),
                        RunAction::SetPhase {
                            phase: GpuJobPhase::Succeeded,
                            message: String::from_str("dry-run completed; Slurm script generated"),
                        },
                    ),
                    RunStep::FinishingDryRun => (
                        self.moved(RunStep::Exited),
                        RunAction::Exit { error: None },
                    ),
                    RunStep::Uploading => {
                        let a = RunAction::CreateRemoteDir { remote_dir: self.remote_dir.clone() };
                        (self.moved(RunStep::CreatingRemoteDir), a)
                    },
                    RunStep::CreatingRemoteDir => {
                        let a = RunAction::UploadWorkspace { remote_dir: self.remote_dir.clone() };
                        (self.moved(RunStep::UploadingWorkspace), a)
                    },
                    RunStep::UploadingWorkspace => {
                        let a = RunAction::Submit { command: submit_command(self.remote_dir.as_str()) };
                        (self.moved(RunStep::Submitting), a)
                    },
                    RunStep::RecordingSubmission => {
                        let a = RunAction::QueryQueue { job_id: self.job_id.clone() };
                        (self.moved(RunStep::QueryingQueue), a)
                    },
                    RunStep::ReportingProgress => {
                        let a = RunAction::Sleep { seconds: self.poll_seconds };
                        (self.moved(RunStep::Waiting), a)
                    },
                    RunStep::Waiting => {
                        let a = RunAction::QueryQueue { job_id: self.job_id.clone() };
                        (self.moved(RunStep::QueryingQueue), a)
                    },
                    _ => (self.moved(RunStep::Exited), RunAction::Exit { error: None }),
                }
            },
        }
    }
}

} // verus!
