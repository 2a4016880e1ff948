use vstd::prelude::*;

use crate::api::{opt_view, strings_view, GpuJob, GpuJobPhase};
use crate::text::{
    all_digits, chars_all_digits, chars_eq, chars_eq_str, chars_of, decimal, lines, lines_chars,
    push_all, push_decimal, push_str, split, split_chars, split_whitespace_chars, string_from,
    tokens, trim, trim_chars, trim_end_char, trim_end_matches_char, views,
};

verus! {

/// A Slurm job as `squeue` or `sacct` reports it.
#[derive(Debug, PartialEq, Eq)]
pub struct SlurmJobStatus {
    pub job_id: String,
    pub state: String,
    pub elapsed: String,
    pub time_limit: String,
    pub reason_or_node: String,
    pub exit_code: String,
    pub max_rss: String,
    pub req_mem: String,
}

/// The view of a `SlurmJobStatus`: each field by its characters.
pub struct SlurmJobStatusView {
    pub job_id: Seq<char>,
    pub state: Seq<char>,
    pub elapsed: Seq<char>,
    pub time_limit: Seq<char>,
    pub reason_or_node: Seq<char>,
    pub exit_code: Seq<char>,
    pub max_rss: Seq<char>,
    pub req_mem: Seq<char>,
}

impl View for SlurmJobStatus {
    type V = SlurmJobStatusView;

    open spec fn view(&self) -> SlurmJobStatusView {
        SlurmJobStatusView {
            job_id: self.job_id@,
            state: self.state@,
            elapsed: self.elapsed@,
            time_limit: self.time_limit@,
            reason_or_node: self.reason_or_node@,
            exit_code: self.exit_code@,
            max_rss: self.max_rss@,
            req_mem: self.req_mem@,
        }
    }
}

pub open spec fn empty_slurm_status() -> SlurmJobStatusView {
    SlurmJobStatusView {
        job_id: Seq::empty(),
        state: Seq::empty(),
        elapsed: Seq::empty(),
        time_limit: Seq::empty(),
        reason_or_node: Seq::empty(),
        exit_code: Seq::empty(),
        max_rss: Seq::empty(),
        req_mem: Seq::empty(),
    }
}

impl Default for SlurmJobStatus {
    fn default() -> (s: SlurmJobStatus)
        ensures
            s@ == empty_slurm_status(),
    {
        SlurmJobStatus {
            job_id: String::new(),
            state: String::new(),
            elapsed: String::new(),
            time_limit: String::new(),
            reason_or_node: String::new(),
            exit_code: String::new(),
            max_rss: String::new(),
            req_mem: String::new(),
        }
    }
}

/// How a Slurm job ended, as far as its state tells.
#[derive(Debug, Clone, Copy, PartialEq, Eq, Structural)]
pub enum SlurmTerminalState {
    Succeeded,
    Failed,
    Cancelled,
    Unknown,
}

pub open spec fn terminal_state_of(s: SlurmJobStatusView) -> SlurmTerminalState {
    if s.state == "COMPLETED"@ && (s.exit_code.len() == 0 || s.exit_code == "0:0"@) {
        SlurmTerminalState::Succeeded
    } else if s.state == "CANCELLED"@ || s.state == "CANCELLED+"@ {
        SlurmTerminalState::Cancelled
    } else if s.state == "FAILED"@ || s.state == "OUT_OF_MEMORY"@ || s.state == "TIMEOUT"@
        || s.state == "NODE_FAIL"@ || s.state == "PREEMPTED"@ {
        SlurmTerminalState::Failed
    } else {
        SlurmTerminalState::Unknown
    }
}

pub open spec fn phase_of_terminal(t: SlurmTerminalState) -> GpuJobPhase {
    match t {
        SlurmTerminalState::Succeeded => GpuJobPhase::Succeeded,
        SlurmTerminalState::Failed => GpuJobPhase::Failed,
        SlurmTerminalState::Cancelled => GpuJobPhase::Cancelled,
        SlurmTerminalState::Unknown => GpuJobPhase::Running,
    }
}

pub open spec fn slurm_phase(s: SlurmJobStatusView) -> GpuJobPhase {
    phase_of_terminal(terminal_state_of(s))
}

pub open spec fn slurm_reason(s: SlurmJobStatusView) -> Seq<char> {
    let st = s.state;
    if st == "OUT_OF_MEMORY"@ {
        "OutOfMemory"@
    } else if st == "TIMEOUT"@ {
        "TimeLimitExceeded"@
    } else if st == "CANCELLED"@ || st == "CANCELLED+"@ {
        "Cancelled"@
    } else if st == "COMPLETED"@ {
        ""@
    } else if st == "FAILED"@ {
        "RuntimeFailed"@
    } else if st == "NODE_FAIL"@ {
        "NodeFailed"@
    } else if st == "PREEMPTED"@ {
        "Preempted"@
    } else if st.len() == 0 {
        "Unknown"@
    } else {
        st
    }
}

impl SlurmJobStatus {
    /// A copy of this status.
    pub fn copy(&self) -> (r: SlurmJobStatus)
        ensures
            r@ == self@,
    {
        SlurmJobStatus {
            job_id: self.job_id.clone(),
            state: self.state.clone(),
            elapsed: self.elapsed.clone(),
            time_limit: self.time_limit.clone(),
            reason_or_node: self.reason_or_node.clone(),
            exit_code: self.exit_code.clone(),
            max_rss: self.max_rss.clone(),
            req_mem: self.req_mem.clone(),
        }
    }

    /// How the job ended: completed with exit code `0:0` (or none) succeeded;
    /// a cancelled state is cancelled; failed, out-of-memory, timeout,
    /// node-failure and preemption failed; anything else is not an end.
    pub fn terminal_state(&self) -> (r: SlurmTerminalState)
        ensures
            r == terminal_state_of(self@),
    {
        let st = chars_of(self.state.as_str());
        let ec = chars_of(self.exit_code.as_str());
        if chars_eq_str(&st, "COMPLETED") && (ec.len() == 0 || chars_eq_str(&ec, "0:0")) {
            SlurmTerminalState::Succeeded
        } else if chars_eq_str(&st, "CANCELLED") || chars_eq_str(&st, "CANCELLED+") {
            SlurmTerminalState::Cancelled
        } else if chars_eq_str(&st, "FAILED") || chars_eq_str(&st, "OUT_OF_MEMORY")
            || chars_eq_str(&st, "TIMEOUT") || chars_eq_str(&st, "NODE_FAIL")
            || chars_eq_str(&st, "PREEMPTED") {
            SlurmTerminalState::Failed
        } else {
            SlurmTerminalState::Unknown
        }
    }

    /// The job phase that the Slurm state stands for; a job that has not
    /// ended is running.
    pub fn phase(&self) -> (r: GpuJobPhase)
        ensures
            r == slurm_phase(self@),
    {
        match self.terminal_state() {
            SlurmTerminalState::Succeeded => GpuJobPhase::Succeeded,
            SlurmTerminalState::Failed => GpuJobPhase::Failed,
            SlurmTerminalState::Cancelled => GpuJobPhase::Cancelled,
            SlurmTerminalState::Unknown => GpuJobPhase::Running,
        }
    }

    /// The reason reported for the Slurm state: a fixed word for the known
    /// states, empty for a completed job, `Unknown` for an empty state, and
    /// the state itself otherwise.
    pub fn reason(&self) -> (r: String)
        ensures
            r@ == slurm_reason(self@),
    {
        let st = chars_of(self.state.as_str());
        if chars_eq_str(&st, "OUT_OF_MEMORY") {
            String::from_str("OutOfMemory")
        } else if chars_eq_str(&st, "TIMEOUT") {
            String::from_str("TimeLimitExceeded")
        } else if chars_eq_str(&st, "CANCELLED") || chars_eq_str(&st, "CANCELLED+") {
            String::from_str("Cancelled")
        } else if chars_eq_str(&st, "COMPLETED") {
            String::from_str("")
        } else if chars_eq_str(&st, "FAILED") {
            String::from_str("RuntimeFailed")
        } else if chars_eq_str(&st, "NODE_FAIL") {
            String::from_str("NodeFailed")
        } else if chars_eq_str(&st, "PREEMPTED") {
            String::from_str("Preempted")
        } else if st.len() == 0 {
            String::from_str("Unknown")
        } else {
            self.state.clone()
        }
    }
}

// ---------------------------------------------------------------------------
// Parsing Slurm's output
// ---------------------------------------------------------------------------

/// The job id in `sbatch` output: the first token after a `job` token that
/// is made of ASCII digits only.
pub open spec fn job_id_scan(toks: Seq<Seq<char>>) -> Option<Seq<char>>
    decreases toks.len(),
{
    if toks.len() < 2 {
        None
    } else if toks[0] == "job"@ && all_digits(toks[1]) {
        Some(toks[1])
    } else {
        job_id_scan(toks.drop_first())
    }
}

/// Finds the id in `sbatch` output such as `Submitted batch job 123`.
pub fn parse_sbatch_job_id(output: &str) -> (r: Option<String>)
    ensures
        opt_view(r) == job_id_scan(tokens(output@)),
{
    let oc = chars_of(output);
    let toks = split_whitespace_chars(&oc);
    let ghost all = tokens(output@);
    let mut i: usize = 0;
    assert(all.skip(0) =~= all);
    while toks.len() >= 2 && i < toks.len() - 1
        invariant
            all == views(toks@),
            all == tokens(output@),
            i <= toks.len(),
            job_id_scan(all) == job_id_scan(all.skip(i as int)),
        decreases toks.len() - i,
    {
        let ghost rest = all.skip(i as int);
        assert(rest[0] == toks@[i as int]@);
        assert(rest[1] == toks@[i + 1]@);
        assert(rest.drop_first() =~= all.skip(i + 1));
        if chars_eq_str(&toks[i], "job") && chars_all_digits(&toks[i + 1]) {
            let id = string_from(&toks[i + 1]);
            assert(job_id_scan(rest) == Some(rest[1]));
            assert(id@ == rest[1]);
            return Some(id);
        }
        i = i + 1;
    }
    assert(all.skip(i as int).len() < 2);
    None
}

/// A status from the fields of an `squeue` line (`%i|%T|%M|%l|%R`).
pub open spec fn squeue_status(f: Seq<Seq<char>>) -> SlurmJobStatusView {
    SlurmJobStatusView {
        job_id: f[0],
        state: f[1],
        elapsed: f[2],
        time_limit: f[3],
        reason_or_node: f[4],
        ..empty_slurm_status()
    }
}

pub open spec fn parse_squeue_spec(line: Seq<char>) -> Option<SlurmJobStatusView> {
    let f = split(trim(line), '|');
    if f.len() < 5 {
        None
    } else {
        Some(squeue_status(f))
    }
}

/// Reads a line of `squeue` output: id, state, elapsed time, time limit and
/// reason or node, separated by `|`; fewer than five fields are no status.
pub fn parse_squeue_line(line: &str) -> (r: Option<SlurmJobStatus>)
    ensures
        match r {
            Some(s) => parse_squeue_spec(line@) == Some(s@),
            None => parse_squeue_spec(line@) is None,
        },
{
    let lc = chars_of(line);
    let t = trim_chars(&lc);
    let f = split_chars(&t, '|');
    if f.len() < 5 {
        return None;
    }
    let st = SlurmJobStatus {
        job_id: string_from(&f[0]),
        state: string_from(&f[1]),
        elapsed: string_from(&f[2]),
        time_limit: string_from(&f[3]),
        reason_or_node: string_from(&f[4]),
        exit_code: String::new(),
        max_rss: String::new(),
        req_mem: String::new(),
    };
    assert(st@ == squeue_status(views(f@)));
    Some(st)
}

/// The first status that a line of `squeue` output gives.
pub open spec fn squeue_scan(ls: Seq<Seq<char>>) -> Option<SlurmJobStatusView>
    decreases ls.len(),
{
    if ls.len() == 0 {
        None
    } else {
        match parse_squeue_spec(ls[0]) {
            Some(s) => Some(s),
            None => squeue_scan(ls.drop_first()),
        }
    }
}

/// The status in `squeue` output: that of its first line that parses.
pub fn parse_squeue_output(output: &str) -> (r: Option<SlurmJobStatus>)
    ensures
        match r {
            Some(s) => squeue_scan(lines(output@)) == Some(s@),
            None => squeue_scan(lines(output@)) is None,
        },
{
    let oc = chars_of(output);
    let ls = lines_chars(&oc);
    let ghost all = lines(output@);
    let mut i: usize = 0;
    assert(all.skip(0) =~= all);
    while i < ls.len()
        invariant
            all == views(ls@),
            all == lines(output@),
            i <= ls.len(),
            squeue_scan(all) == squeue_scan(all.skip(i as int)),
        decreases ls.len() - i,
    {
        assert(all.skip(i as int)[0] == ls@[i as int]@);
        assert(all.skip(i as int).drop_first() =~= all.skip(i + 1));
        let line = string_from(&ls[i]);
        let parsed = parse_squeue_line(line.as_str());
        assert(all.skip(i as int).len() > 0);
        if parsed.is_some() {
            assert(squeue_scan(all.skip(i as int)) == Some(parsed.unwrap()@));
            return parsed;
        }
        i = i + 1;
    }
    None
}

/// A status from the fields of an `sacct` line
/// (`JobID|State|ExitCode|Elapsed|MaxRSS|ReqMem`); a `+` at the end of the
/// state is dropped.
pub open spec fn sacct_status(f: Seq<Seq<char>>) -> SlurmJobStatusView {
    SlurmJobStatusView {
        job_id: f[0],
        state: trim_end_char(f[1], '+'),
        exit_code: f[2],
        elapsed: f[3],
        max_rss: f[4],
        req_mem: f[5],
        ..empty_slurm_status()
    }
}

pub open spec fn sacct_line_matches(line: Seq<char>, job_id: Seq<char>) -> bool {
    let f = split(trim(line), '|');
    f.len() >= 6 && f[0] == job_id
}

/// What `sacct` reports of a job it does not list: its id and `UNKNOWN`.
pub open spec fn sacct_fallback(job_id: Seq<char>) -> SlurmJobStatusView {
    SlurmJobStatusView { job_id: job_id, state: "UNKNOWN"@, ..empty_slurm_status() }
}

pub open spec fn sacct_scan(ls: Seq<Seq<char>>, job_id: Seq<char>) -> SlurmJobStatusView
    decreases ls.len(),
{
    if ls.len() == 0 {
        sacct_fallback(job_id)
    } else if sacct_line_matches(ls[0], job_id) {
        sacct_status(split(trim(ls[0]), '|'))
    } else {
        sacct_scan(ls.drop_first(), job_id)
    }
}

/// Reads `sacct` output: the first line with at least six fields whose id is
/// `job_id`, or, when there is none, an `UNKNOWN` status for `job_id`.
pub fn parse_sacct_line(output: &str, job_id: &str) -> (r: SlurmJobStatus)
    ensures
        r@ == sacct_scan(lines(output@), job_id@),
{
    let oc = chars_of(output);
    let jc = chars_of(job_id);
    let ls = lines_chars(&oc);
    let ghost all = lines(output@);
    let mut i: usize = 0;
    assert(all.skip(0) =~= all);
    while i < ls.len()
        invariant
            all == views(ls@),
            all == lines(output@),
            jc@ == job_id@,
            i <= ls.len(),
            sacct_scan(all, job_id@) == sacct_scan(all.skip(i as int), job_id@),
        decreases ls.len() - i,
    {
        assert(all.skip(i as int)[0] == ls@[i as int]@);
        assert(all.skip(i as int).drop_first() =~= all.skip(i + 1));
        let t = trim_chars(&ls[i]);
        let f = split_chars(&t, '|');
        if f.len() >= 6 && chars_eq(&f[0], &jc) {
            let st = SlurmJobStatus {
                job_id: string_from(&f[0]),
                state: string_from(&trim_end_matches_char(&f[1], '+')),
                exit_code: string_from(&f[2]),
                elapsed: string_from(&f[3]),
                max_rss: string_from(&f[4]),
                req_mem: string_from(&f[5]),
                time_limit: String::new(),
                reason_or_node: String::new(),
            };
            assert(st@ == sacct_status(views(f@)));
            assert(all.skip(i as int).len() > 0);
            assert(sacct_line_matches(all.skip(i as int)[0], job_id@));
            assert(sacct_scan(all.skip(i as int), job_id@) == st@);
            return st;
        }
        i = i + 1;
    }
    SlurmJobStatus {
        job_id: String::from_str(job_id),
        state: String::from_str("UNKNOWN"),
        elapsed: String::new(),
        time_limit: String::new(),
        reason_or_node: String::new(),
        exit_code: String::new(),
        max_rss: String::new(),
        req_mem: String::new(),
    }
}

// ---------------------------------------------------------------------------
// The batch script
// ---------------------------------------------------------------------------

/// The lines joined by `'\n'`.
pub open spec fn join_lines(ls: Seq<Seq<char>>) -> Seq<char>
    decreases ls.len(),
{
    if ls.len() == 0 {
        Seq::empty()
    } else if ls.len() == 1 {
        ls[0]
    } else {
        join_lines(ls.drop_last()) + seq!['\n'] + ls.last()
    }
}

/// A directive line for an optional setting: none when it is absent or empty.
pub open spec fn opt_line(prefix: Seq<char>, value: Option<Seq<char>>) -> Seq<Seq<char>> {
    match value {
        Some(v) => if v.len() > 0 {
            seq![prefix + v]
        } else {
            Seq::empty()
        },
        None => Seq::empty(),
    }
}

pub open spec fn module_lines(modules: Seq<Seq<char>>) -> Seq<Seq<char>> {
    modules.map_values(|m: Seq<char>| "module load "@ + m)
}

/// The lines of the batch script for `job`.
pub open spec fn script_lines(job: GpuJob) -> Seq<Seq<char>> {
    let s = job.spec.slurm;
    seq![
        "#!/bin/bash"@,
        "#SBATCH --job-name="@ + job.metadata.name@,
        "#SBATCH --partition="@ + s.partition@,
        "#SBATCH --nodes="@ + decimal(s.nodes as nat),
        "#SBATCH --ntasks-per-node="@ + decimal(s.ntasks_per_node as nat),
        "#SBATCH --cpus-per-task="@ + decimal(s.cpus_per_task as nat),
        "#SBATCH --gres="@ + s.gres@,
        "#SBATCH --time="@ + s.time@,
    ] + opt_line("#SBATCH --account="@, opt_view(s.account)) + opt_line("#SBATCH --qos="@, opt_view(s.qos)) + opt_line("#SBATCH --output="@, opt_view(s.output))
        + opt_line("#SBATCH --error="@, opt_view(s.error)) + seq![
        Seq::empty(),
        "set -euo pipefail"@,
        Seq::empty(),
    ] + module_lines(strings_view(s.modules@)) + seq![
        Seq::empty(),
        "echo \"[minik8s] build started\""@,
        "bash build.sh"@,
        Seq::empty(),
        "echo \"[minik8s] run started\""@,
        job.spec.run.command@,
        Seq::empty(),
        "echo \"[minik8s] completed\""@,
        Seq::empty(),
    ]
}

/// The batch script for `job`.
pub open spec fn script_of(job: GpuJob) -> Seq<char> {
    join_lines(script_lines(job))
}

fn line_of(prefix: &str, value: &str) -> (r: Vec<char>)
    ensures
        r@ == prefix@ + value@,
{
    let mut r = chars_of(prefix);
    push_str(&mut r, value);
    r
}

fn line_with_number(prefix: &str, n: u32) -> (r: Vec<char>)
    ensures
        r@ == prefix@ + decimal(n as nat),
{
    let mut r = chars_of(prefix);
    push_decimal(&mut r, n);
    r
}

fn add_line(lines: &mut Vec<Vec<char>>, line: Vec<char>)
    ensures
        views(final(lines)@) == views(old(lines)@).push(line@),
{
    lines.push(line);
    assert(views(lines@) =~= views(old(lines)@).push(line@));
}

fn add_opt_line(lines: &mut Vec<Vec<char>>, prefix: &str, value: &Option<String>)
    ensures
        views(final(lines)@) == views(old(lines)@) + opt_line(prefix@, opt_view(*value)),
{
    match value {
        Some(v) => {
            if !v.as_str().is_empty() {
                add_line(lines, line_of(prefix, v.as_str()));
                assert(views(lines@) =~= views(old(lines)@) + opt_line(prefix@, opt_view(*value)));
            } else {
                assert(views(lines@) =~= views(old(lines)@) + opt_line(prefix@, opt_view(*value)));
            }
        },
        None => {
            assert(views(lines@) =~= views(old(lines)@) + opt_line(prefix@, opt_view(*value)));
        },
    }
}

/// Joins lines with `'\n'` between them.
pub fn join_lines_chars(ls: &Vec<Vec<char>>) -> (r: Vec<char>)
    ensures
        r@ == join_lines(views(ls@)),
{
    let mut out: Vec<char> = Vec::new();
    let mut i: usize = 0;
    while i < ls.len()
        invariant
            i <= ls.len(),
            out@ == join_lines(views(ls@).take(i as int)),
        decreases ls.len() - i,
    {
        let ghost before = out@;
        let ghost pre = views(ls@).take(i + 1);
        assert(pre.drop_last() =~= views(ls@).take(i as int));
        assert(pre.last() == ls@[i as int]@);
        if i > 0 {
            out.push('\n');
        }
        push_all(&mut out, &ls[i]);
        assert(out@ =~= join_lines(pre));
        i = i + 1;
    }
    assert(views(ls@).take(ls.len() as int) =~= views(ls@));
    out
}

/// The Slurm batch script for `job`: the `#SBATCH` directives, the module
/// loads, the build step and the run command.
pub fn render_script(gpujob: &GpuJob) -> (r: String)
    ensures
        r@ == script_of(*gpujob),
{
    let spec = &gpujob.spec.slurm;
    let mut lines: Vec<Vec<char>> = Vec::new();
    add_line(&mut lines, chars_of("#!/bin/bash"));
    add_line(&mut lines, line_of("#SBATCH --job-name=", gpujob.metadata.name.as_str()));
    add_line(&mut lines, line_of("#SBATCH --partition=", spec.partition.as_str()));
    add_line(&mut lines, line_with_number("#SBATCH --nodes=", spec.nodes));
    add_line(&mut lines, line_with_number("#SBATCH --ntasks-per-node=", spec.ntasks_per_node));
    add_line(&mut lines, line_with_number("#SBATCH --cpus-per-task=", spec.cpus_per_task));
    add_line(&mut lines, line_of("#SBATCH --gres=", spec.gres.as_str()));
    add_line(&mut lines, line_of("#SBATCH --time=", spec.time.as_str()));
    let ghost head = views(lines@);
    add_opt_line(&mut lines, "#SBATCH --account=", &spec.account);
    add_opt_line(&mut lines, "#SBATCH --qos=", &spec.qos);
    add_opt_line(&mut lines, "#SBATCH --output=", &spec.output);
    add_opt_line(&mut lines, "#SBATCH --error=", &spec.error);
    add_line(&mut lines, Vec::new());
    add_line(&mut lines, chars_of("set -euo pipefail"));
    add_line(&mut lines, Vec::new());
    let ghost before_modules = views(lines@);
    let mut i: usize = 0;
    while i < spec.modules.len()
        invariant
            i <= spec.modules.len(),
            views(lines@) == before_modules + module_lines(strings_view(spec.modules@).take(i as int)),
        decreases spec.modules.len() - i,
    {
        let ghost prev = views(lines@);
        add_line(&mut lines, line_of("module load ", spec.modules[i].as_str()));
        assert(module_lines(strings_view(spec.modules@).take(i + 1)) =~= module_lines(
            strings_view(spec.modules@).take(i as int),
        ).push("module load "@ + spec.modules@[i as int]@));
        assert(views(lines@) =~= before_modules + module_lines(strings_view(spec.modules@).take(i + 1)));
        i = i + 1;
    }
    assert(strings_view(spec.modules@).take(spec.modules.len() as int) =~= strings_view(spec.modules@));
    let ghost after_modules = views(lines@);
    add_line(&mut lines, Vec::new());
    add_line(&mut lines, chars_of("echo \"[minik8s] build started\""));
    add_line(&mut lines, chars_of("bash build.sh"));
    add_line(&mut lines, Vec::new());
    add_line(&mut lines, chars_of("echo \"[minik8s] run started\""));
    add_line(&mut lines, chars_of(gpujob.spec.run.command.as_str()));
    add_line(&mut lines, Vec::new());
    add_line(&mut lines, chars_of("echo \"[minik8s] completed\""));
    add_line(&mut lines, Vec::new());
    assert(views(lines@) =~= script_lines(*gpujob));
    let joined = join_lines_chars(&lines);
    string_from(&joined)
}

} // verus!
