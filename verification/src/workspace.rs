use vstd::prelude::*;

use crate::api::GpuJob;
use crate::text::{
    chars_eq_str, chars_of, is_alnum, is_ascii_alphanumeric, push_all, push_str, split,
    split_chars, string_from, trim_start_char, trim_start_matches_char, views,
};

verus! {

// ---------------------------------------------------------------------------
// Paths
// ---------------------------------------------------------------------------

/// `PathBuf::push` on Unix: an absolute part replaces the path; otherwise the
/// part is appended, after a `/` unless the path is empty or already ends in one.
pub open spec fn push_path(base: Seq<char>, part: Seq<char>) -> Seq<char> {
    if part.len() > 0 && part[0] == '/' {
        part
    } else if base.len() == 0 || base.last() == '/' {
        base + part
    } else {
        base + seq!['/'] + part
    }
}

/// Appends a path component to `base`, as `PathBuf::push` does.
pub fn push_path_chars(base: &mut Vec<char>, part: &Vec<char>)
    ensures
        final(base)@ == push_path(old(base)@, part@),
{
    if part.len() > 0 && part[0] == '/' {
        base.clear();
        push_all(base, part);
        assert(base@ =~= part@);
    } else if base.len() == 0 || base[base.len() - 1] == '/' {
        push_all(base, part);
    } else {
        base.push('/');
        push_all(base, part);
    }
}

/// `base` joined with `part`, as `Path::join` does.
pub fn join_path(base: &str, part: &str) -> (r: String)
    ensures
        r@ == push_path(base@, part@),
{
    let mut b = chars_of(base);
    let p = chars_of(part);
    push_path_chars(&mut b, &p);
    string_from(&b)
}

/// The local directory that holds a job's files: its root and the `.ssh`
/// directory under it.
#[derive(Debug)]
pub struct JobWorkspace {
    root: String,
    ssh_dir: String,
}

pub struct JobWorkspaceView {
    pub root: Seq<char>,
    pub ssh_dir: Seq<char>,
}

impl View for JobWorkspace {
    type V = JobWorkspaceView;

    closed spec fn view(&self) -> JobWorkspaceView {
        JobWorkspaceView { root: self.root@, ssh_dir: self.ssh_dir@ }
    }
}

/// The uid of a job, or its name when it has none.
pub open spec fn uid_or_name(job: GpuJob) -> Seq<char> {
    match job.metadata.uid {
        Some(u) => u@,
        None => job.metadata.name@,
    }
}

fn uid_or_name_str(gpujob: &GpuJob) -> (r: &str)
    ensures
        r@ == uid_or_name(*gpujob),
{
    match &gpujob.metadata.uid {
        Some(u) => u.as_str(),
        None => gpujob.metadata.name.as_str(),
    }
}

/// The name of a job's workspace directory: `minik8s-gpujob-<name>-<uid>`.
pub open spec fn workspace_dir_name(job: GpuJob) -> Seq<char> {
    "minik8s-gpujob-"@ + job.metadata.name@ + "-"@ + uid_or_name(job)
}

/// The root of a job's workspace under the temporary directory `temp_dir`.
pub fn workspace_root(temp_dir: &str, gpujob: &GpuJob) -> (r: String)
    ensures
        r@ == push_path(temp_dir@, workspace_dir_name(*gpujob)),
{
    let mut name = chars_of("minik8s-gpujob-");
    push_str(&mut name, gpujob.metadata.name.as_str());
    push_str(&mut name, "-");
    push_str(&mut name, uid_or_name_str(gpujob));
    let mut b = chars_of(temp_dir);
    push_path_chars(&mut b, &name);
    string_from(&b)
}

impl JobWorkspace {
    /// The workspace rooted at `root`, with its `.ssh` directory under it.
    pub fn at(root: String) -> (w: JobWorkspace)
        ensures
            w@.root == root@,
            w@.ssh_dir == push_path(root@, ".ssh"@),
    {
        let ssh_dir = join_path(root.as_str(), ".ssh");
        JobWorkspace { root, ssh_dir }
    }

    pub fn root(&self) -> (r: &str)
        ensures
            r@ == self@.root,
    {
        self.root.as_str()
    }

    pub fn ssh_dir(&self) -> (r: &str)
        ensures
            r@ == self@.ssh_dir,
    {
        self.ssh_dir.as_str()
    }

    /// Where the private key goes: `id_ed25519` in the `.ssh` directory.
    pub fn private_key_path(&self) -> (r: String)
        ensures
            r@ == push_path(self@.ssh_dir, "id_ed25519"@),
    {
        join_path(self.ssh_dir.as_str(), "id_ed25519")
    }

    /// Where the known hosts go: `known_hosts` in the `.ssh` directory.
    pub fn known_hosts_path(&self) -> (r: String)
        ensures
            r@ == push_path(self@.ssh_dir, "known_hosts"@),
    {
        join_path(self.ssh_dir.as_str(), "known_hosts")
    }

    /// Where the batch script goes: `job.slurm` in the root.
    pub fn slurm_script_path(&self) -> (r: String)
        ensures
            r@ == push_path(self@.root, "job.slurm"@),
    {
        join_path(self.root.as_str(), "job.slurm")
    }
}

// ---------------------------------------------------------------------------
// Names that are safe in a shell and in a path
// ---------------------------------------------------------------------------

/// ASCII letters and digits, `-`, `_` and `.` are kept; any other character
/// becomes `replacement`.
pub open spec fn safe_char(c: char, replacement: char) -> char {
    if is_alnum(c) || c == '-' || c == '_' || c == '.' {
        c
    } else {
        replacement
    }
}

pub open spec fn replace_unsafe(s: Seq<char>, replacement: char) -> Seq<char> {
    s.map_values(|c: char| safe_char(c, replacement))
}

pub fn replace_unsafe_chars(s: &Vec<char>, replacement: char) -> (r: Vec<char>)
    ensures
        r@ == replace_unsafe(s@, replacement),
{
    let mut r: Vec<char> = Vec::new();
    let mut i: usize = 0;
    while i < s.len()
        invariant
            i <= s.len(),
            r@ == replace_unsafe(s@.take(i as int), replacement),
        decreases s.len() - i,
    {
        let c = s[i];
        let d = if is_ascii_alphanumeric(c) || c == '-' || c == '_' || c == '.' {
            c
        } else {
            replacement
        };
        r.push(d);
        assert(replace_unsafe(s@.take(i + 1), replacement) =~= replace_unsafe(
            s@.take(i as int),
            replacement,
        ).push(d));
        i = i + 1;
    }
    assert(s@.take(s.len() as int) =~= s@);
    r
}

/// `value` with every character other than ASCII letters, digits, `-`, `_`
/// and `.` replaced by `-`.
pub fn sanitize(value: &str) -> (r: String)
    ensures
        r@ == replace_unsafe(value@, '-'),
{
    let c = chars_of(value);
    string_from(&replace_unsafe_chars(&c, '-'))
}

/// The namespace of a job, or `default` when it has none.
pub open spec fn namespace_or_default(ns: Seq<char>) -> Seq<char> {
    if ns.len() == 0 {
        "default"@
    } else {
        ns
    }
}

/// The job's directory on the HPC login node:
/// `~/minik8s-gpujobs/<namespace>-<name>-<uid>`, each part sanitized.
pub open spec fn remote_work_dir_of(job: GpuJob) -> Seq<char> {
    "~/minik8s-gpujobs/"@ + replace_unsafe(namespace_or_default(job.metadata.namespace@), '-')
        + "-"@ + replace_unsafe(job.metadata.name@, '-') + "-"@ + replace_unsafe(
        uid_or_name(job),
        '-',
    )
}

pub fn remote_work_dir(gpujob: &GpuJob) -> (r: String)
    ensures
        r@ == remote_work_dir_of(*gpujob),
{
    let namespace: &str = if gpujob.metadata.namespace.as_str().is_empty() {
        "default"
    } else {
        gpujob.metadata.namespace.as_str()
    };
    let mut out = chars_of("~/minik8s-gpujobs/");
    let ns = chars_of(namespace);
    push_all(&mut out, &replace_unsafe_chars(&ns, '-'));
    push_str(&mut out, "-");
    let name = chars_of(gpujob.metadata.name.as_str());
    push_all(&mut out, &replace_unsafe_chars(&name, '-'));
    push_str(&mut out, "-");
    let uid = chars_of(uid_or_name_str(gpujob));
    push_all(&mut out, &replace_unsafe_chars(&uid, '-'));
    string_from(&out)
}

// ---------------------------------------------------------------------------
// Paths inside the workspace
// ---------------------------------------------------------------------------

/// Why a relative path was refused.
#[derive(Debug, PartialEq, Eq)]
pub enum PathError {
    /// The path is absolute.
    NotRelative(String),
    /// The path has a `..` component.
    EscapesWorkspace(String),
}

pub enum PathFault {
    NotRelative(Seq<char>),
    EscapesWorkspace(Seq<char>),
}

impl View for PathError {
    type V = PathFault;

    open spec fn view(&self) -> PathFault {
        match self {
            PathError::NotRelative(p) => PathFault::NotRelative(p@),
            PathError::EscapesWorkspace(p) => PathFault::EscapesWorkspace(p@),
        }
    }
}

pub open spec fn path_fault_message(f: PathFault) -> Seq<char> {
    match f {
        PathFault::NotRelative(p) => "path "@ + p + " must be relative"@,
        PathFault::EscapesWorkspace(p) => "path "@ + p + " must not escape workspace"@,
    }
}

impl PathError {
    /// The message that the error reports.
    pub fn message(&self) -> (r: String)
        ensures
            r@ == path_fault_message(self@),
    {
        match self {
            PathError::NotRelative(p) => String::from_str("path ").concat(p.as_str()).concat(
                " must be relative",
            ),
            PathError::EscapesWorkspace(p) => String::from_str("path ").concat(
                p.as_str(),
            ).concat(" must not escape workspace"),
        }
    }
}

/// A component that `Path::components` drops: an empty one (from `//` or a
/// trailing `/`) or `.`.
pub open spec fn skipped_component(p: Seq<char>) -> bool {
    p.len() == 0 || p == "."@
}

/// Pushes each component of `parts` that is not skipped.
pub open spec fn push_components(base: Seq<char>, parts: Seq<Seq<char>>) -> Seq<char>
    decreases parts.len(),
{
    if parts.len() == 0 {
        base
    } else {
        let next = if skipped_component(parts[0]) {
            base
        } else {
            push_path(base, parts[0])
        };
        push_components(next, parts.drop_first())
    }
}

pub open spec fn has_parent_component(parts: Seq<Seq<char>>) -> bool {
    exists|i: int| 0 <= i < parts.len() && parts[i] == ".."@
}

/// Where `relative_path` lands under `root`, if it may be used: an absolute
/// path is refused, and so is one with a `..` component.
pub open spec fn child_path(root: Seq<char>, relative_path: Seq<char>) -> Result<
    Seq<char>,
    PathFault,
> {
    let parts = split(relative_path, '/');
    if relative_path.len() > 0 && relative_path[0] == '/' {
        Err(PathFault::NotRelative(relative_path))
    } else if has_parent_component(parts) {
        Err(PathFault::EscapesWorkspace(relative_path))
    } else {
        Ok(push_components(root, parts))
    }
}

/// `relative_path` under `root`, when it stays inside it.
pub fn safe_child_path(root: &str, relative_path: &str) -> (r: Result<String, PathError>)
    ensures
        match r {
            Ok(p) => child_path(root@, relative_path@) == Ok::<Seq<char>, PathFault>(p@),
            Err(e) => child_path(root@, relative_path@) == Err::<Seq<char>, PathFault>(e@),
        },
{
    let rel = chars_of(relative_path);
    if rel.len() > 0 && rel[0] == '/' {
        return Err(PathError::NotRelative(String::from_str(relative_path)));
    }
    let parts = split_chars(&rel, '/');
    let ghost pv = views(parts@);
    let mut result = chars_of(root);
    let mut i: usize = 0;
    assert(pv.skip(0) =~= pv);
    while i < parts.len()
        invariant
            pv == views(parts@),
            pv == split(relative_path@, '/'),
            !(relative_path@.len() > 0 && relative_path@[0] == '/'),
            i <= parts.len(),
            forall|j: int| 0 <= j < i ==> pv[j] != ".."@,
            push_components(root@, pv) == push_components(result@, pv.skip(i as int)),
        decreases parts.len() - i,
    {
        let ghost rest = pv.skip(i as int);
        assert(rest[0] == parts@[i as int]@);
        assert(rest.drop_first() =~= pv.skip(i + 1));
        if chars_eq_str(&parts[i], "..") {
            assert(pv[i as int] == ".."@);
            return Err(PathError::EscapesWorkspace(String::from_str(relative_path)));
        }
        if parts[i].len() == 0 || chars_eq_str(&parts[i], ".") {
        } else {
            push_path_chars(&mut result, &parts[i]);
        }
        i = i + 1;
    }
    assert(pv.skip(parts.len() as int) =~= Seq::<Seq<char>>::empty());
    Ok(string_from(&result))
}

// ---------------------------------------------------------------------------
// File modes
// ---------------------------------------------------------------------------

pub open spec fn is_octal_digit(c: char) -> bool {
    '0' <= c <= '7'
}

pub open spec fn octal_value(s: Seq<char>) -> nat
    decreases s.len(),
{
    if s.len() == 0 {
        0
    } else {
        octal_value(s.drop_last()) * 8 + ((s.last() as u32) - ('0' as u32)) as nat
    }
}

pub open spec fn all_octal(s: Seq<char>) -> bool {
    forall|i: int| 0 <= i < s.len() ==> is_octal_digit(#[trigger] s[i])
}

/// `u32::from_str_radix(s, 8)`: an optional `+`, then one or more octal
/// digits whose value fits in a `u32`.
pub open spec fn parse_octal_u32(s: Seq<char>) -> Option<u32> {
    let digits = if s.len() > 0 && s[0] == '+' {
        s.drop_first()
    } else {
        s
    };
    if digits.len() == 0 || !all_octal(digits) || octal_value(digits) > u32::MAX {
        None
    } else {
        Some(octal_value(digits) as u32)
    }
}

/// The permission bits that a mode such as `0755` stands for: leading zeros
/// dropped, the rest read as an octal number.
pub open spec fn file_mode_of(mode: Seq<char>) -> Option<u32> {
    parse_octal_u32(trim_start_char(mode, '0'))
}

proof fn lemma_octal_value_grows(s: Seq<char>, k: int)
    requires
        0 <= k <= s.len(),
        all_octal(s),
    ensures
        octal_value(s.take(k)) <= octal_value(s),
    decreases s.len(),
{
    if k < s.len() {
        let p = s.drop_last();
        assert(p.take(k) =~= s.take(k));
        assert(all_octal(p));
        lemma_octal_value_grows(p, k);
    } else {
        assert(s.take(k) =~= s);
    }
}

/// Reads a file mode such as `0755`: `None` when it is not an octal number
/// that fits in a `u32` once its leading zeros are dropped.
pub fn parse_file_mode(mode: &str) -> (r: Option<u32>)
    ensures
        r == file_mode_of(mode@),
{
    let mc = chars_of(mode);
    let t = trim_start_matches_char(&mc, '0');
    let start: usize = if t.len() > 0 && t[0] == '+' {
        1
    } else {
        0
    };
    let ghost digits = t@.skip(start as int);
    assert(digits =~= (if t@.len() > 0 && t@[0] == '+' {
        t@.drop_first()
    } else {
        t@
    }));
    if start >= t.len() {
        return None;
    }
    let mut value: u64 = 0;
    let mut i: usize = start;
    assert(digits.take(0) =~= Seq::<char>::empty());
    while i < t.len()
        invariant
            start <= i <= t.len(),
            t@ == trim_start_char(mode@, '0'),
            digits == t@.skip(start as int),
            digits == (if t@.len() > 0 && t@[0] == '+' {
                t@.drop_first()
            } else {
                t@
            }),
            all_octal(digits.take(i - start)),
            value == octal_value(digits.take(i - start)),
            value <= u32::MAX,
        decreases t.len() - i,
    {
        let c = t[i];
        if !('0' <= c && c <= '7') {
            assert(digits[i - start] == c);
            return None;
        }
        let d: u64 = (c as u32 - '0' as u32) as u64;
        let ghost pre = digits.take(i - start);
        let ghost next = digits.take(i - start + 1);
        assert(next.drop_last() =~= pre);
        assert(next.last() == c);
        let nv = value * 8 + d;
        assert(nv == octal_value(next));
        if nv > 0xFFFF_FFFF {
            proof {
                if all_octal(digits) {
                    lemma_octal_value_grows(digits, i - start + 1);
                }
            }
            return None;
        }
        value = nv;
        i = i + 1;
    }
    assert(digits.take(t.len() - start) =~= digits);
    Some(value as u32)
}

} // verus!
