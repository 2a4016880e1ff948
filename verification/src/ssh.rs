use vstd::prelude::*;

use crate::api::{opt_view, strings_view, GpuJob, HpcCredential};
use crate::order::{sort_dedup, same_elements, strictly_increasing};
use crate::strmap::StringMap;
use crate::text::{
    chars_eq_str, chars_of, is_blank, push_all, push_str, replace_job_marker,
    replace_job_marker_chars, string_from, trim, trim_chars, views,
};
use crate::workspace::{
    child_path, replace_unsafe, replace_unsafe_chars, safe_child_path, JobWorkspace, PathError,
    PathFault,
};

verus! {

/// What the SSH client needs to reach the login node.
#[derive(Debug)]
pub struct SshClient {
    login_host: String,
    username: String,
    key_path: String,
    known_hosts_path: String,
    strict_host_key_checking: bool,
    password: Option<String>,
}

pub struct SshClientView {
    pub login_host: Seq<char>,
    pub username: Seq<char>,
    pub key_path: Seq<char>,
    pub known_hosts_path: Seq<char>,
    pub strict_host_key_checking: bool,
    /// The password to log in with, when the credential has no private key.
    pub password: Option<Seq<char>>,
}

impl View for SshClient {
    type V = SshClientView;

    closed spec fn view(&self) -> SshClientView {
        SshClientView {
            login_host: self.login_host@,
            username: self.username@,
            key_path: self.key_path@,
            known_hosts_path: self.known_hosts_path@,
            strict_host_key_checking: self.strict_host_key_checking,
            password: opt_view(self.password),
        }
    }
}

/// The options that every `ssh` and `scp` call gets: the key (unless the
/// client logs in with a password), the host key policy (`yes` when known
/// hosts were given, else `accept-new`) and the known hosts file.
pub open spec fn ssh_options_of(c: SshClientView) -> Seq<Seq<char>> {
    (if c.password is None {
        seq!["-i"@, c.key_path]
    } else {
        Seq::empty()
    }) + seq![
        "-o"@,
        "StrictHostKeyChecking="@ + (if c.strict_host_key_checking {
            "yes"@
        } else {
            "accept-new"@
        }),
        "-o"@,
        "UserKnownHostsFile="@ + c.known_hosts_path,
    ]
}

fn concat_str(a: &str, b: &str) -> (r: String)
    ensures
        r@ == a@ + b@,
{
    String::from_str(a).concat(b)
}

impl SshClient {
    /// A client for `login_host` with the credential's user; host keys are
    /// checked strictly when the credential lists known hosts. It logs in with
    /// the private key, or with the password when the credential has no key.
    pub fn new(login_host: &str, credential: &HpcCredential, workspace: &JobWorkspace) -> (c:
        SshClient)
        ensures
            c@.login_host == login_host@,
            c@.username == credential.spec.username@,
            c@.key_path == crate::workspace::push_path(workspace@.ssh_dir, "id_ed25519"@),
            c@.known_hosts_path == crate::workspace::push_path(workspace@.ssh_dir, "known_hosts"@),
            c@.strict_host_key_checking == !is_blank(credential.spec.known_hosts@),
            c@.password == (if !is_blank(credential.spec.private_key@) {
                None
            } else {
                Some(credential.spec.password@)
            }),
    {
        let strict_host_key_checking = credential.has_known_hosts();
        SshClient {
            login_host: String::from_str(login_host),
            username: credential.spec.username.clone(),
            key_path: workspace.private_key_path(),
            known_hosts_path: workspace.known_hosts_path(),
            strict_host_key_checking,
            password: if credential.uses_private_key() {
                None
            } else {
                Some(credential.spec.password.clone())
            },
        }
    }

    /// The password to log in with, if the client does not use a key.
    pub fn password(&self) -> (r: Option<&str>)
        ensures
            match r {
                Some(p) => self@.password == Some(p@),
                None => self@.password is None,
            },
    {
        match &self.password {
            Some(p) => Some(p.as_str()),
            None => None,
        }
    }

    /// The program and its leading arguments for an `ssh` or `scp` call:
    /// the program itself, or, for a password login, `sshpass -e` (which reads
    /// the password from `SSHPASS`) in front of it.
    pub fn launcher(&self, program: &str) -> (r: Vec<String>)
        ensures
            strings_view(r@) == (if self@.password is None {
                seq![program@]
            } else {
                seq!["sshpass"@, "-e"@, program@]
            }),
    {
        let mut r: Vec<String> = Vec::new();
        if self.password.is_some() {
            r.push(String::from_str("sshpass"));
            r.push(String::from_str("-e"));
        }
        r.push(String::from_str(program));
        assert(strings_view(r@) =~= (if self@.password is None {
            seq![program@]
        } else {
            seq!["sshpass"@, "-e"@, program@]
        }));
        r
    }

    /// `user@host`.
    pub fn remote(&self) -> (r: String)
        ensures
            r@ == self@.username + "@"@ + self@.login_host,
    {
        let mut out = chars_of(self.username.as_str());
        push_str(&mut out, "@");
        push_str(&mut out, self.login_host.as_str());
        string_from(&out)
    }

    /// `user@host:path`, the remote side of an `scp` call.
    pub fn remote_target(&self, remote_path: &str) -> (r: String)
        ensures
            r@ == self@.username + "@"@ + self@.login_host + ":"@ + remote_path@,
    {
        let mut out = chars_of(self.remote().as_str());
        push_str(&mut out, ":");
        push_str(&mut out, remote_path);
        string_from(&out)
    }

    /// The key, host key and known hosts options of `ssh` and `scp`.
    pub fn ssh_options(&self) -> (r: Vec<String>)
        ensures
            strings_view(r@) == ssh_options_of(self@),
    {
        let mut r: Vec<String> = Vec::new();
        if self.password.is_none() {
            r.push(String::from_str("-i"));
            r.push(self.key_path.clone());
        }
        r.push(String::from_str("-o"));
        let policy: &str = if self.strict_host_key_checking {
            "yes"
        } else {
            "accept-new"
        };
        r.push(concat_str("StrictHostKeyChecking=", policy));
        r.push(String::from_str("-o"));
        r.push(concat_str("UserKnownHostsFile=", self.known_hosts_path.as_str()));
        assert(strings_view(r@) =~= ssh_options_of(self@));
        r
    }
}

/// The remote command that creates the job directory.
pub fn create_remote_dir_command(remote_dir: &str) -> (r: String)
    ensures
        r@ == "mkdir -p "@ + remote_dir@,
{
    concat_str("mkdir -p ", remote_dir)
}

/// The remote command that submits the batch script.
pub fn submit_command(remote_dir: &str) -> (r: String)
    ensures
        r@ == "cd "@ + remote_dir@ + " && sbatch job.slurm"@,
{
    concat_str("cd ", remote_dir).concat(" && sbatch job.slurm")
}

/// The remote command that asks `squeue` about a job.
pub fn squeue_command(job_id: &str) -> (r: String)
    ensures
        r@ == "squeue -j "@ + job_id@ + " -h -o \"%i|%T|%M|%l|%R\""@,
{
    concat_str("squeue -j ", job_id).concat(" -h -o \"%i|%T|%M|%l|%R\"")
}

/// The remote command that asks `sacct` about a job.
pub fn sacct_command(job_id: &str) -> (r: String)
    ensures
        r@ == "sacct -n -X -j "@ + job_id@
            + " -P --format=JobID,State,ExitCode,Elapsed,MaxRSS,ReqMem"@,
{
    concat_str("sacct -n -X -j ", job_id).concat(
        " -P --format=JobID,State,ExitCode,Elapsed,MaxRSS,ReqMem",
    )
}

/// The message of a remote program that failed: what ran, how it exited, and
/// its trimmed standard output and error.
pub open spec fn failure_message(
    context: Seq<char>,
    status: Seq<char>,
    stdout: Seq<char>,
    stderr: Seq<char>,
) -> Seq<char> {
    context + " exited with "@ + status + "; stdout: "@ + trim(stdout) + "; stderr: "@ + trim(
        stderr,
    )
}

/// What a finished `ssh`/`scp` run gives back: its standard output when it
/// exited successfully, otherwise the failure message.
pub fn decode_output(success: bool, status: &str, stdout: &str, stderr: &str, context: &str) -> (r:
    Result<String, String>)
    ensures
        success ==> (r matches Ok(out) && out@ == stdout@),
        !success ==> (r matches Err(msg) && msg@ == failure_message(
            context@,
            status@,
            stdout@,
            stderr@,
        )),
{
    if success {
        return Ok(String::from_str(stdout));
    }
    let mut msg = chars_of(context);
    push_str(&mut msg, " exited with ");
    push_str(&mut msg, status);
    push_str(&mut msg, "; stdout: ");
    let out = trim_chars(&chars_of(stdout));
    push_all(&mut msg, &out);
    push_str(&mut msg, "; stderr: ");
    let err = trim_chars(&chars_of(stderr));
    push_all(&mut msg, &err);
    Err(string_from(&msg))
}

/// Whether a top-level workspace entry is uploaded: all but `.ssh`.
pub fn uploads_entry(name: &str) -> (r: bool)
    ensures
        r == (name@ != ".ssh"@),
{
    let c = chars_of(name);
    !chars_eq_str(&c, ".ssh")
}

/// Where a top-level workspace entry goes on the login node.
pub fn upload_destination(remote_dir: &str, name: &str) -> (r: String)
    ensures
        r@ == remote_dir@ + "/"@ + name@,
{
    concat_str(remote_dir, "/").concat(name)
}

// ---------------------------------------------------------------------------
// Collecting outputs
// ---------------------------------------------------------------------------

/// The config map key for a file path: characters other than ASCII letters,
/// digits, `-`, `_` and `.` become `_`.
pub fn config_map_key(path: &str) -> (r: String)
    ensures
        r@ == replace_unsafe(path@, '_'),
{
    let c = chars_of(path);
    string_from(&replace_unsafe_chars(&c, '_'))
}

pub open spec fn tail_of(content: Seq<char>, max_chars: nat) -> Seq<char> {
    if content.len() <= max_chars {
        content
    } else {
        content.skip(content.len() - max_chars)
    }
}

/// The last `max_chars` characters of `content` (all of it when shorter).
pub fn tail(content: &str, max_chars: usize) -> (r: String)
    ensures
        r@ == tail_of(content@, max_chars as nat),
{
    let c = chars_of(content);
    if c.len() <= max_chars {
        return String::from_str(content);
    }
    let start: usize = c.len() - max_chars;
    let mut out: Vec<char> = Vec::new();
    let mut i: usize = start;
    while i < c.len()
        invariant
            start <= i <= c.len(),
            out@ == c@.subrange(start as int, i as int),
        decreases c.len() - i,
    {
        out.push(c[i]);
        assert(c@.subrange(start as int, i + 1) =~= c@.subrange(start as int, i as int).push(c@[i as int]));
        i = i + 1;
    }
    assert(c@.subrange(start as int, c@.len() as int) =~= c@.skip(start as int));
    string_from(&out)
}

/// How much of the job's output and error files the status keeps.
pub const TAIL_CHARS: usize = 8192;

pub open spec fn default_or(o: Option<Seq<char>>, d: Seq<char>) -> Seq<char> {
    match o {
        Some(v) => v,
        None => d,
    }
}

/// The job's output file, `%j` replaced by the job id.
pub open spec fn output_path_of(job: GpuJob, job_id: Seq<char>) -> Seq<char> {
    replace_job_marker(default_or(opt_view(job.spec.slurm.output), "slurm-%j.out"@), job_id)
}

/// The job's error file, `%j` replaced by the job id.
pub open spec fn error_path_of(job: GpuJob, job_id: Seq<char>) -> Seq<char> {
    replace_job_marker(default_or(opt_view(job.spec.slurm.error), "slurm-%j.err"@), job_id)
}

/// The files to fetch, before sorting: those the job asks for, then its
/// output and error files.
pub open spec fn wanted_files(job: GpuJob, job_id: Seq<char>) -> Seq<Seq<char>> {
    strings_view(job.spec.run.collect@).push(output_path_of(job, job_id)).push(
        error_path_of(job, job_id),
    )
}

/// One file to fetch: from where, to where, and under which key it is kept.
#[derive(Debug)]
pub struct CollectItem {
    pub remote_path: String,
    pub local_path: String,
    pub key: String,
}

pub struct CollectItemView {
    pub remote_path: Seq<char>,
    pub local_path: Seq<char>,
    pub key: Seq<char>,
}

impl View for CollectItem {
    type V = CollectItemView;

    open spec fn view(&self) -> CollectItemView {
        CollectItemView {
            remote_path: self.remote_path@,
            local_path: self.local_path@,
            key: self.key@,
        }
    }
}

/// The fetch of one remote file: `%j` replaced, fetched from the job
/// directory into `results/` of the workspace, and keyed by its sanitized name.
pub open spec fn collect_item_of(
    remote_dir: Seq<char>,
    root: Seq<char>,
    job_id: Seq<char>,
    file: Seq<char>,
) -> Result<CollectItemView, PathFault> {
    let resolved = replace_job_marker(file, job_id);
    match child_path(root, "results/"@ + resolved) {
        Ok(local) => Ok(
            CollectItemView {
                remote_path: remote_dir + "/"@ + resolved,
                local_path: local,
                key: replace_unsafe(resolved, '_'),
            },
        ),
        Err(e) => Err(e),
    }
}

pub open spec fn prepend_items(
    p: Seq<CollectItemView>,
    r: Result<Seq<CollectItemView>, PathFault>,
) -> Result<Seq<CollectItemView>, PathFault> {
    match r {
        Ok(x) => Ok(p + x),
        Err(e) => Err(e),
    }
}

/// The fetches of `files`, in order; the first file that would leave the
/// workspace makes the whole plan fail.
pub open spec fn collect_items_of(
    remote_dir: Seq<char>,
    root: Seq<char>,
    job_id: Seq<char>,
    files: Seq<Seq<char>>,
) -> Result<Seq<CollectItemView>, PathFault>
    decreases files.len(),
{
    if files.len() == 0 {
        Ok(Seq::empty())
    } else {
        match collect_item_of(remote_dir, root, job_id, files[0]) {
            Err(e) => Err(e),
            Ok(it) => prepend_items(
                seq![it],
                collect_items_of(remote_dir, root, job_id, files.drop_first()),
            ),
        }
    }
}

/// The files to fetch after a job ended, and where they go.
#[derive(Debug)]
pub struct CollectPlan {
    pub output_path: String,
    pub error_path: String,
    /// The remote files, sorted, each once.
    pub files: Vec<String>,
    pub items: Vec<CollectItem>,
}

pub open spec fn item_views(v: Seq<CollectItem>) -> Seq<CollectItemView> {
    v.map_values(|i: CollectItem| i@)
}

/// Plans the fetch of a job's outputs: the files it asks for plus its
/// output and error files, sorted and each once, each fetched into
/// `results/` of the workspace.
pub fn plan_collect_outputs(
    remote_dir: &str,
    slurm_job_id: &str,
    gpujob: &GpuJob,
    workspace: &JobWorkspace,
) -> (r: Result<CollectPlan, PathError>)
    ensures
        match r {
            Ok(plan) => {
                &&& plan.output_path@ == output_path_of(*gpujob, slurm_job_id@)
                &&& plan.error_path@ == error_path_of(*gpujob, slurm_job_id@)
                &&& strictly_increasing(strings_view(plan.files@))
                &&& same_elements(strings_view(plan.files@), wanted_files(*gpujob, slurm_job_id@))
                &&& collect_items_of(
                    remote_dir@,
                    workspace@.root,
                    slurm_job_id@,
                    strings_view(plan.files@),
                ) == Ok::<Seq<CollectItemView>, PathFault>(item_views(plan.items@))
            },
            Err(e) => exists|files: Seq<Seq<char>>|
                {
                    &&& strictly_increasing(files)
                    &&& same_elements(files, wanted_files(*gpujob, slurm_job_id@))
                    &&& collect_items_of(remote_dir@, workspace@.root, slurm_job_id@, files)
                        == Err::<Seq<CollectItemView>, PathFault>(e@)
                },
        },
{
    let id = chars_of(slurm_job_id);
    let out_default: &str = match &gpujob.spec.slurm.output {
        Some(o) => o.as_str(),
        None => "slurm-%j.out",
    };
    let err_default: &str = match &gpujob.spec.slurm.error {
        Some(e) => e.as_str(),
        None => "slurm-%j.err",
    };
    let output_path = replace_job_marker_chars(&chars_of(out_default), &id);
    let error_path = replace_job_marker_chars(&chars_of(err_default), &id);

    let mut wanted: Vec<Vec<char>> = Vec::new();
    let mut i: usize = 0;
    let collect = &gpujob.spec.run.collect;
    while i < collect.len()
        invariant
            i <= collect.len(),
            views(wanted@) == strings_view(collect@).take(i as int),
        decreases collect.len() - i,
    {
        let ghost before = views(wanted@);
        let c = chars_of(collect[i].as_str());
        assert(c@ == strings_view(collect@)[i as int]);
        wanted.push(c);
        assert(views(wanted@) =~= before.push(c@));
        assert(views(wanted@) =~= strings_view(collect@).take(i + 1));
        i = i + 1;
    }
    assert(strings_view(collect@).take(collect.len() as int) =~= strings_view(collect@));
    let mut o2: Vec<char> = Vec::new();
    push_all(&mut o2, &output_path);
    let mut e2: Vec<char> = Vec::new();
    push_all(&mut e2, &error_path);
    wanted.push(o2);
    wanted.push(e2);
    assert(views(wanted@) =~= wanted_files(*gpujob, slurm_job_id@));
    let sorted = sort_dedup(&wanted);

    let ghost all = views(sorted@);
    let mut files: Vec<String> = Vec::new();
    let mut items: Vec<CollectItem> = Vec::new();
    let mut k: usize = 0;
    assert(all.skip(0) =~= all);
    assert(item_views(items@) =~= Seq::<CollectItemView>::empty());
    while k < sorted.len()
        invariant
            k <= sorted.len(),
            all == views(sorted@),
            strictly_increasing(all),
            same_elements(all, wanted_files(*gpujob, slurm_job_id@)),
            id@ == slurm_job_id@,
            strings_view(files@) == all.take(k as int),
            collect_items_of(remote_dir@, workspace@.root, slurm_job_id@, all) == prepend_items(
                item_views(items@),
                collect_items_of(remote_dir@, workspace@.root, slurm_job_id@, all.skip(k as int)),
            ),
        decreases sorted.len() - k,
    {
        let ghost rest = all.skip(k as int);
        assert(rest[0] == sorted@[k as int]@);
        assert(rest.drop_first() =~= all.skip(k + 1));
        let resolved = replace_job_marker_chars(&sorted[k], &id);
        let mut rel = chars_of("results/");
        push_all(&mut rel, &resolved);
        let rel_s = string_from(&rel);
        let local = safe_child_path(workspace.root(), rel_s.as_str());
        match local {
            Err(e) => {
                assert(collect_items_of(remote_dir@, workspace@.root, slurm_job_id@, all) == Err::<
                    Seq<CollectItemView>,
                    PathFault,
                >(e@));
                assert(strictly_increasing(all));
                return Err(e);
            },
            Ok(local_path) => {
                let mut remote = chars_of(remote_dir);
                push_str(&mut remote, "/");
                push_all(&mut remote, &resolved);
                let item = CollectItem {
                    remote_path: string_from(&remote),
                    local_path,
                    key: string_from(&replace_unsafe_chars(&resolved, '_')),
                };
                let ghost it = item@;
                let ghost before_items = item_views(items@);
                assert(collect_item_of(remote_dir@, workspace@.root, slurm_job_id@, rest[0]) == Ok::<
                    CollectItemView,
                    PathFault,
                >(it));
                items.push(item);
                assert(item_views(items@) =~= before_items + seq![it]);
                let ghost tail_r = collect_items_of(
                    remote_dir@,
                    workspace@.root,
                    slurm_job_id@,
                    all.skip(k + 1),
                );
                assert(prepend_items(before_items, prepend_items(seq![it], tail_r))
                    == prepend_items(item_views(items@), tail_r)) by {
                    match tail_r {
                        Ok(x) => {
                            assert(before_items + (seq![it] + x) =~= item_views(items@) + x);
                        },
                        Err(_) => {},
                    }
                }
                let ghost before_files = strings_view(files@);
                let f = string_from(&sorted[k]);
                assert(f@ == all[k as int]);
                files.push(f);
                assert(strings_view(files@) =~= before_files.push(f@));
                assert(strings_view(files@) =~= all.take(k + 1));
            },
        }
        k = k + 1;
    }
    assert(all.skip(sorted.len() as int) =~= Seq::<Seq<char>>::empty());
    assert(all.take(sorted.len() as int) =~= all);
    assert(item_views(items@) + Seq::<CollectItemView>::empty() =~= item_views(items@));
    Ok(CollectPlan {
        output_path: string_from(&output_path),
        error_path: string_from(&error_path),
        files,
        items,
    })
}

/// The outputs of a job: the fetched files by key, and the tails of its
/// output and error files.
#[derive(Debug)]
pub struct CollectedOutputs {
    pub files: StringMap,
    pub stdout_tail: String,
    pub stderr_tail: String,
}

/// The tail of the file stored under `key`, or nothing when it was not fetched.
pub open spec fn stored_tail(files: Map<Seq<char>, Seq<char>>, key: Seq<char>) -> Seq<char> {
    if files.contains_key(key) {
        tail_of(files[key], TAIL_CHARS as nat)
    } else {
        Seq::empty()
    }
}

fn stored_tail_of(files: &StringMap, path: &str) -> (r: String)
    ensures
        r@ == stored_tail(files@, replace_unsafe(path@, '_')),
{
    let key = config_map_key(path);
    match files.get(key.as_str()) {
        Some(content) => tail(content.as_str(), TAIL_CHARS),
        None => String::new(),
    }
}

/// The files kept from the first `n` planned items: item `i` is kept under its
/// key with `contents[i]` when that download gave a content; a later item
/// wins over an earlier one with the same key.
pub open spec fn fetched_files_upto(
    items: Seq<CollectItemView>,
    contents: Seq<Option<String>>,
    n: nat,
) -> Map<Seq<char>, Seq<char>>
    decreases n,
{
    if n == 0 {
        Map::empty()
    } else {
        let i = n - 1;
        let before = fetched_files_upto(items, contents, (n - 1) as nat);
        if i < contents.len() && contents[i] is Some {
            before.insert(items[i].key, contents[i].unwrap()@)
        } else {
            before
        }
    }
}

/// The files kept after fetching every planned item.
pub open spec fn fetched_files(items: Seq<CollectItemView>, contents: Seq<Option<String>>) -> Map<
    Seq<char>,
    Seq<char>,
> {
    fetched_files_upto(items, contents, items.len())
}

/// The map of fetched files: the content of each planned item whose download
/// succeeded (`Some` at its index in `contents`) under the item's key; an
/// item past the end of `contents` counts as not fetched.
pub fn collected_files(plan: &CollectPlan, contents: Vec<Option<String>>) -> (r: StringMap)
    ensures
        r@ == fetched_files(item_views(plan.items@), contents@),
{
    let mut files = StringMap::new();
    let ghost items = item_views(plan.items@);
    let mut i: usize = 0;
    while i < plan.items.len()
        invariant
            i <= plan.items.len(),
            items == item_views(plan.items@),
            files@ == fetched_files_upto(items, contents@, i as nat),
        decreases plan.items.len() - i,
    {
        if i < contents.len() {
            match &contents[i] {
                Some(content) => {
                    files.insert(plan.items[i].key.clone(), content.clone());
                },
                None => {},
            }
        }
        i = i + 1;
    }
    files
}

/// Bundles the fetched files with the tails of the output and error files.
pub fn collected_outputs(plan: &CollectPlan, files: StringMap) -> (r: CollectedOutputs)
    ensures
        r.files@ == files@,
        r.stdout_tail@ == stored_tail(files@, replace_unsafe(plan.output_path@, '_')),
        r.stderr_tail@ == stored_tail(files@, replace_unsafe(plan.error_path@, '_')),
{
    let stdout_tail = stored_tail_of(&files, plan.output_path.as_str());
    let stderr_tail = stored_tail_of(&files, plan.error_path.as_str());
    CollectedOutputs { files, stdout_tail, stderr_tail }
}

} // verus!
