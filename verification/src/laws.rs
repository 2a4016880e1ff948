use vstd::prelude::*;

use crate::api::{
    opt_view, credential_fault, file_paths, first_path_fault, gpujob_fault, relative_path_fault, strings_view, GpuJob,
    GpuJobPhase, GpuJobSpec, GpuJobStatusView, HpcCredentialSpec, Timestamp,
};
use crate::api::ObjectRef;
use crate::controller::{
    is_terminal_phase, needs_mark, reconcile_transition, ControllerConfig, ReconcileAction,
    ReconcileEvent, ReconcileStep,
};
use crate::order::{lemma_str_lt_asymmetric, lemma_str_lt_irreflexive, same_elements, str_lt, strictly_increasing};
use crate::runner::{accepts, failure_message, initial_run, run_next, RunActionView, RunEventView, RunStep, RunView};
use crate::slurm::{
    join_lines, module_lines, opt_line, script_lines, script_of, job_id_scan, sacct_scan, slurm_phase, terminal_state_of,
    SlurmJobStatusView, SlurmTerminalState,
};
use crate::ssh::tail_of;
use crate::status::{mark_runner_pod_spec, merge_slurm_spec, set_phase_spec, submitted_spec};
use crate::text::{
    all_digits, decimal, has_dot_dot, is_alnum, is_blank, is_ws, lines, split, tokens, trim, trim_end, trim_end_char,
    trim_start,
};
use crate::workspace::{
    child_path, has_parent_component, push_components, push_path, remote_work_dir_of,
    replace_unsafe,
};

verus! {

// ---------------------------------------------------------------------------
// Credentials
// ---------------------------------------------------------------------------

/// A credential is accepted exactly when it names a user and carries a
/// password or a private key (either one suffices).
pub proof fn law_credential_needs_user_and_secret(c: HpcCredentialSpec)
    ensures
        credential_fault(c) is None <==> !is_blank(c.username@) && (!is_blank(c.password@)
            || !is_blank(c.private_key@)),
{
}

// ---------------------------------------------------------------------------
// Slurm states
// ---------------------------------------------------------------------------

/// A Slurm status stands for an ended job (succeeded, failed or cancelled)
/// exactly when its terminal state is known.
pub proof fn law_phase_terminal_iff_known(s: SlurmJobStatusView)
    ensures
        is_terminal_phase(slurm_phase(s)) <==> terminal_state_of(s) != SlurmTerminalState::Unknown,
{
}

/// Whatever `sacct` prints, the status read from it is that of the job asked
/// about.
pub proof fn law_sacct_reports_requested_job(output: Seq<char>, job_id: Seq<char>)
    ensures
        sacct_scan(lines(output), job_id).job_id == job_id,
{
    lemma_sacct_scan_job_id(lines(output), job_id);
}

proof fn lemma_sacct_scan_job_id(ls: Seq<Seq<char>>, job_id: Seq<char>)
    ensures
        sacct_scan(ls, job_id).job_id == job_id,
    decreases ls.len(),
{
    if ls.len() > 0 {
        lemma_sacct_scan_job_id(ls.drop_first(), job_id);
    }
}

proof fn lemma_trim_end_char_no_trailing(s: Seq<char>, c: char)
    ensures
        trim_end_char(s, c).len() == 0 || trim_end_char(s, c).last() != c,
    decreases s.len(),
{
    if s.len() > 0 && s.last() == c {
        lemma_trim_end_char_no_trailing(s.drop_last(), c);
    }
}

proof fn lemma_sacct_scan_state(ls: Seq<Seq<char>>, job_id: Seq<char>)
    ensures
        sacct_scan(ls, job_id).state == "UNKNOWN"@ || sacct_scan(ls, job_id).state.len() == 0
            || sacct_scan(ls, job_id).state.last() != '+',
    decreases ls.len(),
{
    if ls.len() > 0 {
        let f = split(trim(ls[0]), '|');
        if f.len() >= 6 {
            lemma_trim_end_char_no_trailing(f[1], '+');
        }
        lemma_sacct_scan_state(ls.drop_first(), job_id);
    }
}

/// The state read from `sacct` never ends in `+`.
pub proof fn law_sacct_state_has_no_plus(output: Seq<char>, job_id: Seq<char>)
    ensures
        sacct_scan(lines(output), job_id).state.len() == 0 || sacct_scan(
            lines(output),
            job_id,
        ).state.last() != '+',
{
    lemma_sacct_scan_state(lines(output), job_id);
    reveal_strlit("UNKNOWN");
}

proof fn lemma_tokens_nonempty(s: Seq<char>)
    ensures
        forall|i: int| 0 <= i < tokens(s).len() ==> #[trigger] tokens(s)[i].len() > 0,
    decreases s.len(),
{
    if s.len() > 0 {
        let p = s.drop_last();
        lemma_tokens_nonempty(p);
        let rest = tokens(p);
        let c = s.last();
        if !is_ws(c) && s.len() >= 2 && !is_ws(s[s.len() - 2]) {
            assert(p.last() == s[s.len() - 2]);
            crate::text::lemma_tokens_nonempty_when_continued(p);
            assert forall|i: int| 0 <= i < tokens(s).len() implies #[trigger] tokens(s)[i].len() > 0 by {
                if i < rest.len() - 1 {
                    assert(tokens(s)[i] == rest[i]);
                }
            }
        }
    }
}

proof fn lemma_job_id_scan_digits(toks: Seq<Seq<char>>)
    requires
        forall|i: int| 0 <= i < toks.len() ==> #[trigger] toks[i].len() > 0,
    ensures
        job_id_scan(toks) matches Some(id) ==> id.len() > 0 && all_digits(id),
    decreases toks.len(),
{
    if toks.len() >= 2 {
        let rest = toks.drop_first();
        assert forall|i: int| 0 <= i < rest.len() implies #[trigger] rest[i].len() > 0 by {
            assert(rest[i] == toks[i + 1]);
        }
        lemma_job_id_scan_digits(rest);
    }
}

/// The job id read from `sbatch` output is a non-empty run of ASCII digits.
pub proof fn law_sbatch_job_id_is_number(output: Seq<char>)
    ensures
        job_id_scan(tokens(output)) matches Some(id) ==> id.len() > 0 && all_digits(id),
{
    lemma_tokens_nonempty(output);
    lemma_job_id_scan_digits(tokens(output));
}

// ---------------------------------------------------------------------------
// Names and paths
// ---------------------------------------------------------------------------

pub open spec fn is_safe_char(c: char) -> bool {
    is_alnum(c) || c == '-' || c == '_' || c == '.'
}

/// A sanitized name holds only ASCII letters, digits, `-`, `_` and `.`, and
/// sanitizing it again changes nothing (for `-` and for `_` as replacement).
pub proof fn law_sanitized_is_safe_and_stable(s: Seq<char>, replacement: char)
    requires
        replacement == '-' || replacement == '_',
    ensures
        forall|i: int| 0 <= i < s.len() ==> is_safe_char(#[trigger] replace_unsafe(s, replacement)[i]),
        replace_unsafe(replace_unsafe(s, replacement), replacement) == replace_unsafe(s, replacement),
{
    assert(replace_unsafe(replace_unsafe(s, replacement), replacement) =~= replace_unsafe(s, replacement));
}

/// The job directory on the login node is `~/minik8s-gpujobs/` followed by
/// characters that a shell takes literally (ASCII letters, digits, `-`, `_`, `.`).
pub proof fn law_remote_work_dir_is_shell_safe(job: GpuJob)
    ensures
        remote_work_dir_of(job).len() > 18,
        remote_work_dir_of(job).take(18) == "~/minik8s-gpujobs/"@,
        forall|i: int|
            18 <= i < remote_work_dir_of(job).len() ==> is_safe_char(#[trigger] remote_work_dir_of(job)[i]),
{
    reveal_strlit("~/minik8s-gpujobs/");
    reveal_strlit("-");
    let d = remote_work_dir_of(job);
    assert(d.take(18) =~= "~/minik8s-gpujobs/"@);
}

proof fn lemma_split_parts_have_no_sep(s: Seq<char>, sep: char)
    ensures
        forall|i: int, j: int|
            0 <= i < split(s, sep).len() && 0 <= j < split(s, sep)[i].len() ==> #[trigger] split(
                s,
                sep,
            )[i][j] != sep,
    decreases s.len(),
{
    if s.len() > 0 {
        lemma_split_parts_have_no_sep(s.drop_last(), sep);
        crate::text::lemma_split_nonempty(s.drop_last(), sep);
    }
}

proof fn lemma_push_components_prefix(base: Seq<char>, parts: Seq<Seq<char>>)
    requires
        forall|i: int| 0 <= i < parts.len() ==> (#[trigger] parts[i]).len() == 0 || parts[i][0] != '/',
    ensures
        push_components(base, parts).len() >= base.len(),
        push_components(base, parts).take(base.len() as int) == base,
    decreases parts.len(),
{
    if parts.len() > 0 {
        let p0 = parts[0];
        let next = if crate::workspace::skipped_component(p0) {
            base
        } else {
            push_path(base, p0)
        };
        assert(next.take(base.len() as int) =~= base);
        let rest = parts.drop_first();
        assert forall|i: int| 0 <= i < rest.len() implies (#[trigger] rest[i]).len() == 0 || rest[i][0] != '/' by {
            assert(rest[i] == parts[i + 1]);
        }
        lemma_push_components_prefix(next, rest);
        assert(push_components(base, parts).take(base.len() as int) =~= push_components(next, rest).take(
            next.len() as int,
        ).take(base.len() as int));
    }
}

/// A relative path that is accepted lands under the root: the root is a
/// prefix of the result, and no component of the path is `..`.
pub proof fn law_child_path_stays_under_root(root: Seq<char>, relative_path: Seq<char>)
    ensures
        child_path(root, relative_path) matches Ok(p) ==> {
            &&& p.len() >= root.len()
            &&& p.take(root.len() as int) == root
            &&& !has_parent_component(split(relative_path, '/'))
        },
{
    let parts = split(relative_path, '/');
    lemma_split_parts_have_no_sep(relative_path, '/');
    assert forall|i: int| 0 <= i < parts.len() implies (#[trigger] parts[i]).len() == 0 || parts[i][0] != '/' by {
        if parts[i].len() > 0 {
            assert(parts[i][0] != '/');
        }
    }
    lemma_push_components_prefix(root, parts);
}

/// A path with a `..` component is refused, whatever the root.
pub proof fn law_parent_component_refused(root: Seq<char>, relative_path: Seq<char>)
    requires
        has_parent_component(split(relative_path, '/')),
    ensures
        child_path(root, relative_path) is Err,
{
}

proof fn lemma_first_path_fault_none(paths: Seq<Seq<char>>, field: Seq<char>)
    requires
        first_path_fault(paths, field) is None,
    ensures
        forall|i: int| 0 <= i < paths.len() ==> relative_path_fault(#[trigger] paths[i], field) is None,
    decreases paths.len(),
{
    if paths.len() > 0 {
        lemma_first_path_fault_none(paths.drop_first(), field);
        assert forall|i: int| 0 <= i < paths.len() implies relative_path_fault(#[trigger] paths[i], field) is None by {
            if i > 0 {
                assert(paths[i] == paths.drop_first()[i - 1]);
            }
        }
    }
}

/// Every source file and collected path of an accepted job is, trimmed,
/// non-empty, not absolute, and free of `..`.
pub proof fn law_accepted_job_paths_are_relative(spec: GpuJobSpec)
    requires
        gpujob_fault(spec) is None,
    ensures
        forall|i: int|
            0 <= i < spec.source.files@.len() ==> {
                let t = trim(#[trigger] spec.source.files@[i].path@);
                t.len() > 0 && t[0] != '/' && !has_dot_dot(t)
            },
        forall|i: int|
            0 <= i < spec.run.collect@.len() ==> {
                let t = trim(#[trigger] spec.run.collect@[i]@);
                t.len() > 0 && t[0] != '/' && !has_dot_dot(t)
            },
{
    let fp = file_paths(spec.source.files@);
    let cp = strings_view(spec.run.collect@);
    lemma_first_path_fault_none(fp, "gpujob spec.source.files.path"@);
    lemma_first_path_fault_none(cp, "gpujob spec.run.collect"@);
    assert forall|i: int| 0 <= i < spec.source.files@.len() implies {
        let t = trim(#[trigger] spec.source.files@[i].path@);
        t.len() > 0 && t[0] != '/' && !has_dot_dot(t)
    } by {
        assert(fp[i] == spec.source.files@[i].path@);
        assert(relative_path_fault(fp[i], "gpujob spec.source.files.path"@) is None);
    }
    assert forall|i: int| 0 <= i < spec.run.collect@.len() implies {
        let t = trim(#[trigger] spec.run.collect@[i]@);
        t.len() > 0 && t[0] != '/' && !has_dot_dot(t)
    } by {
        assert(cp[i] == spec.run.collect@[i]@);
        assert(relative_path_fault(cp[i], "gpujob spec.run.collect"@) is None);
    }
}

proof fn lemma_trim_start_skip(s: Seq<char>) -> (k: int)
    ensures
        0 <= k <= s.len(),
        trim_start(s) == s.skip(k),
        forall|j: int| 0 <= j < k ==> is_ws(#[trigger] s[j]),
    decreases s.len(),
{
    if s.len() > 0 && is_ws(s[0]) {
        let k1 = lemma_trim_start_skip(s.drop_first());
        assert(s.drop_first().skip(k1) =~= s.skip(k1 + 1));
        assert forall|j: int| 0 <= j < k1 + 1 implies is_ws(#[trigger] s[j]) by {
            if j > 0 {
                assert(s[j] == s.drop_first()[j - 1]);
            }
        }
        k1 + 1
    } else {
        assert(s.skip(0) =~= s);
        0
    }
}

proof fn lemma_trim_end_take(s: Seq<char>) -> (m: int)
    ensures
        0 <= m <= s.len(),
        trim_end(s) == s.take(m),
        forall|j: int| m <= j < s.len() ==> is_ws(#[trigger] s[j]),
    decreases s.len(),
{
    if s.len() > 0 && is_ws(s.last()) {
        let m1 = lemma_trim_end_take(s.drop_last());
        assert(s.drop_last().take(m1) =~= s.take(m1));
        assert forall|j: int| m1 <= j < s.len() implies is_ws(#[trigger] s[j]) by {
            if j < s.len() - 1 {
                assert(s[j] == s.drop_last()[j]);
            }
        }
        m1
    } else {
        assert(s.take(s.len() as int) =~= s);
        s.len() as int
    }
}

/// The trimmed string is a window `[k, e)` of the string, outside which
/// everything is whitespace.
proof fn lemma_trim_window(s: Seq<char>) -> (ke: (int, int))
    ensures
        0 <= ke.0 <= ke.1 <= s.len(),
        trim(s) == s.subrange(ke.0, ke.1),
        forall|j: int| 0 <= j < s.len() && !is_ws(#[trigger] s[j]) ==> ke.0 <= j < ke.1,
{
    let k = lemma_trim_start_skip(s);
    let t = s.skip(k);
    let m = lemma_trim_end_take(t);
    assert(t.take(m) =~= s.subrange(k, k + m));
    assert forall|j: int| 0 <= j < s.len() && !is_ws(#[trigger] s[j]) implies k <= j < k + m by {
        if j >= k + m {
            assert(t[j - k] == s[j]);
        }
    }
    (k, k + m)
}

proof fn lemma_split_part_in(s: Seq<char>, sep: char, p: int) -> (st: int)
    requires
        0 <= p < split(s, sep).len(),
    ensures
        0 <= st,
        st + split(s, sep)[p].len() <= s.len(),
        s.subrange(st, st + split(s, sep)[p].len()) == split(s, sep)[p],
        p == split(s, sep).len() - 1 ==> st + split(s, sep)[p].len() == s.len(),
    decreases s.len(),
{
    if s.len() == 0 {
        assert(s.subrange(0, 0) =~= split(s, sep)[p]);
        0
    } else {
        let t = s.drop_last();
        let rest = split(t, sep);
        crate::text::lemma_split_nonempty(t, sep);
        if s.last() == sep {
            if p < rest.len() {
                let st = lemma_split_part_in(t, sep, p);
                assert(s.subrange(st, st + rest[p].len()) =~= t.subrange(st, st + rest[p].len()));
                st
            } else {
                assert(s.subrange(s.len() as int, s.len() as int) =~= split(s, sep)[p]);
                s.len() as int
            }
        } else {
            let st = lemma_split_part_in(t, sep, p);
            if p < rest.len() - 1 {
                assert(s.subrange(st, st + rest[p].len()) =~= t.subrange(st, st + rest[p].len()));
            } else {
                assert(s.subrange(st, st + rest[p].len() + 1) =~= t.subrange(st, st + rest[p].len()).push(s.last()));
            }
            st
        }
    }
}

/// A path that validation accepts is accepted by `safe_child_path` too,
/// under any root: validation keeps source files inside the workspace.
pub proof fn law_valid_path_lands_in_workspace(root: Seq<char>, path: Seq<char>, field: Seq<char>)
    requires
        relative_path_fault(path, field) is None,
    ensures
        child_path(root, path) is Ok,
{
    let (k, e) = lemma_trim_window(path);
    let t = trim(path);
    if path.len() > 0 && path[0] == '/' {
        assert(!is_ws(path[0]));
        assert(k <= 0 < e);
        assert(t[0] == path[0]);
    }
    let parts = split(path, '/');
    if has_parent_component(parts) {
        let p = choose|p: int| 0 <= p < parts.len() && parts[p] == ".."@;
        let st = lemma_split_part_in(path, '/', p);
        reveal_strlit("..");
        assert(parts[p].len() == 2);
        assert(path[st] == parts[p][0]);
        assert(path[st + 1] == parts[p][1]);
        assert(!is_ws(path[st]) && !is_ws(path[st + 1]));
        assert(t[st - k] == path[st]);
        assert(t[st + 1 - k] == path[st + 1]);
        assert(has_dot_dot(t));
    }
}

/// Every source file and collected path of an accepted job lands under any
/// workspace root.
pub proof fn law_accepted_job_files_land_in_workspace(spec: GpuJobSpec, root: Seq<char>)
    requires
        gpujob_fault(spec) is None,
    ensures
        forall|i: int|
            0 <= i < spec.source.files@.len() ==> child_path(root, #[trigger] spec.source.files@[i].path@) is Ok,
        forall|i: int|
            0 <= i < spec.run.collect@.len() ==> child_path(root, #[trigger] spec.run.collect@[i]@) is Ok,
{
    let fp = file_paths(spec.source.files@);
    let cp = strings_view(spec.run.collect@);
    lemma_first_path_fault_none(fp, "gpujob spec.source.files.path"@);
    lemma_first_path_fault_none(cp, "gpujob spec.run.collect"@);
    assert forall|i: int| 0 <= i < spec.source.files@.len() implies child_path(root, #[trigger] spec.source.files@[i].path@) is Ok by {
        assert(fp[i] == spec.source.files@[i].path@);
        law_valid_path_lands_in_workspace(root, fp[i], "gpujob spec.source.files.path"@);
    }
    assert forall|i: int| 0 <= i < spec.run.collect@.len() implies child_path(root, #[trigger] spec.run.collect@[i]@) is Ok by {
        assert(cp[i] == spec.run.collect@[i]@);
        law_valid_path_lands_in_workspace(root, cp[i], "gpujob spec.run.collect"@);
    }
}

// ---------------------------------------------------------------------------
// Sorting and tails
// ---------------------------------------------------------------------------

/// Two strictly increasing sequences with the same elements are equal: the
/// sorted, deduplicated list of files to fetch is determined by the files.
pub proof fn law_sorted_list_is_unique(a: Seq<Seq<char>>, b: Seq<Seq<char>>)
    requires
        strictly_increasing(a),
        strictly_increasing(b),
        same_elements(a, b),
    ensures
        a == b,
    decreases a.len() + b.len(),
{
    if a.len() == 0 || b.len() == 0 {
        if a.len() > 0 {
            assert(a.contains(a[0]));
        }
        if b.len() > 0 {
            assert(b.contains(b[0]));
        }
        assert(a =~= b);
    } else {
        // Both first elements are the least element.
        assert(a.contains(a[0]));
        assert(b.contains(b[0]));
        let ia = choose|k: int| 0 <= k < b.len() && b[k] == a[0];
        let ib = choose|k: int| 0 <= k < a.len() && a[k] == b[0];
        if ia > 0 {
            assert(str_lt(b[0], b[ia]));
            if ib > 0 {
                assert(str_lt(a[0], a[ib]));
                lemma_str_lt_asymmetric(b[0], a[0]);
            } else {
                lemma_str_lt_irreflexive(b[0]);
            }
        }
        assert(a[0] == b[0]);
        let ra = a.drop_first();
        let rb = b.drop_first();
        assert forall|x: Seq<char>| ra.contains(x) <==> rb.contains(x) by {
            if ra.contains(x) {
                let k = choose|k: int| 0 <= k < ra.len() && ra[k] == x;
                assert(a[k + 1] == x);
                assert(a.contains(x));
                let m = choose|m: int| 0 <= m < b.len() && b[m] == x;
                if m == 0 {
                    assert(str_lt(a[0], a[k + 1]));
                    lemma_str_lt_irreflexive(a[0]);
                }
                assert(rb[m - 1] == x);
            }
            if rb.contains(x) {
                let k = choose|k: int| 0 <= k < rb.len() && rb[k] == x;
                assert(b[k + 1] == x);
                assert(b.contains(x));
                let m = choose|m: int| 0 <= m < a.len() && a[m] == x;
                if m == 0 {
                    assert(str_lt(b[0], b[k + 1]));
                    lemma_str_lt_irreflexive(b[0]);
                }
                assert(ra[m - 1] == x);
            }
        }
        assert forall|i: int, j: int| 0 <= i < j < ra.len() implies str_lt(#[trigger] ra[i], #[trigger] ra[j]) by {
            assert(ra[i] == a[i + 1]);
            assert(ra[j] == a[j + 1]);
        }
        assert forall|i: int, j: int| 0 <= i < j < rb.len() implies str_lt(#[trigger] rb[i], #[trigger] rb[j]) by {
            assert(rb[i] == b[i + 1]);
            assert(rb[j] == b[j + 1]);
        }
        law_sorted_list_is_unique(ra, rb);
        assert(a =~= seq![a[0]] + ra);
        assert(b =~= seq![b[0]] + rb);
    }
}

/// A tail is at most `max_chars` long and ends the content.
pub proof fn law_tail_is_bounded_suffix(content: Seq<char>, max_chars: nat)
    ensures
        tail_of(content, max_chars).len() <= max_chars,
        tail_of(content, max_chars).len() <= content.len(),
        content.len() <= max_chars ==> tail_of(content, max_chars) == content,
        content.skip(content.len() - tail_of(content, max_chars).len()) == tail_of(content, max_chars),
{
    if content.len() <= max_chars {
        assert(content.skip(0) =~= content);
    }
}

proof fn lemma_join_lines_prefix(ls: Seq<Seq<char>>)
    requires
        ls.len() >= 2,
    ensures
        join_lines(ls).len() >= ls[0].len() + 1,
        join_lines(ls).take(ls[0].len() as int + 1) == ls[0].push('\n'),
    decreases ls.len(),
{
    let p = ls.drop_last();
    if ls.len() == 2 {
        assert(join_lines(p) == ls[0]);
        assert(join_lines(ls).take(ls[0].len() as int + 1) =~= ls[0].push('\n'));
    } else {
        lemma_join_lines_prefix(p);
        assert(p[0] == ls[0]);
        assert(join_lines(ls).take(ls[0].len() as int + 1) =~= join_lines(p).take(ls[0].len() as int + 1));
    }
}

/// Every batch script starts with the line `#!/bin/bash`.
pub proof fn law_script_starts_with_shebang(job: GpuJob)
    ensures
        script_of(job).len() >= 12,
        script_of(job).take(12) == "#!/bin/bash\n"@,
{
    let ls = script_lines(job);
    assert(ls.len() >= 2);
    assert(ls[0] == "#!/bin/bash"@);
    lemma_join_lines_prefix(ls);
    reveal_strlit("#!/bin/bash");
    reveal_strlit("#!/bin/bash\n");
    assert("#!/bin/bash"@.push('\n') =~= "#!/bin/bash\n"@);
}

/// A job that names a Slurm account gets the line `#SBATCH --account=<account>`
/// in its batch script, right after the time limit.
pub proof fn law_script_sets_account(job: GpuJob)
    requires
        job.spec.slurm.account matches Some(a) && a@.len() > 0,
    ensures
        script_lines(job)[7] == "#SBATCH --time="@ + job.spec.slurm.time@,
        script_lines(job)[8] == "#SBATCH --account="@ + job.spec.slurm.account.unwrap()@,
{
}

/// Every batch script ends with a newline.
pub proof fn law_script_ends_with_newline(job: GpuJob)
    ensures
        script_of(job).len() > 0,
        script_of(job).last() == '\n',
{
    let ls = script_lines(job);
    assert(ls.last() == Seq::<char>::empty());
    assert(join_lines(ls) == join_lines(ls.drop_last()) + seq!['\n'] + ls.last());
}

// ---------------------------------------------------------------------------
// Job status
// ---------------------------------------------------------------------------

/// Once a job has started, reporting a phase or a submission keeps its start time.
pub proof fn law_start_time_is_kept(
    s: GpuJobStatusView,
    phase: GpuJobPhase,
    message: Seq<char>,
    job_id: Seq<char>,
    remote_dir: Seq<char>,
    now: Timestamp,
)
    requires
        s.start_time is Some,
    ensures
        set_phase_spec(s, phase, message, now).start_time == s.start_time,
        submitted_spec(s, job_id, remote_dir, now).start_time == s.start_time,
{
}

/// Copying the same Slurm status in twice is the same as once.
pub proof fn law_merge_slurm_idempotent(s: GpuJobStatusView, slurm: SlurmJobStatusView)
    ensures
        merge_slurm_spec(merge_slurm_spec(s, slurm), slurm) == merge_slurm_spec(s, slurm),
{
}

/// The controller leaves an ended job alone: its first decision is to finish.
pub proof fn law_ended_job_left_alone(
    key: ObjectRef,
    job: GpuJob,
    config: ControllerConfig,
    r: (ReconcileStep, ReconcileAction),
)
    requires
        is_terminal_phase(job.status.phase),
        reconcile_transition(ReconcileStep::Start, ReconcileEvent::Begin, key, Some(job), config, r),
    ensures
        r.0 == ReconcileStep::Finished,
        r.1 is Finish,
{
}

/// Once the status names the runner pod, the controller does not mark it again.
pub proof fn law_marked_job_needs_no_mark(s: GpuJobStatusView, pod_name: Seq<char>, now: Timestamp)
    ensures
        !needs_mark(mark_runner_pod_spec(s, pod_name, now), pod_name),
{
}

// ---------------------------------------------------------------------------
// The runner
// ---------------------------------------------------------------------------

/// The steps that a dry run may reach: it never talks to the login node.
pub open spec fn dry_run_step(step: RunStep) -> bool {
    step == RunStep::Start || step == RunStep::Preparing || step == RunStep::LoadingCredential
        || step == RunStep::PreparingWorkspace || step == RunStep::PrintingScript || step
        == RunStep::FinishingDryRun || step == RunStep::ReportingFailure || step == RunStep::Exited
}

/// What holds of every run reached from its start: a dry run stays in the
/// dry-run steps, and from fetching the outputs on the run holds a status
/// of an ended Slurm job.
pub open spec fn run_invariant(s: RunView) -> bool {
    &&& s.dry_run ==> dry_run_step(s.step)
    &&& (s.step == RunStep::CollectingOutputs || s.step == RunStep::StoringResults || s.step
        == RunStep::Finishing) ==> terminal_state_of(s.terminal) != SlurmTerminalState::Unknown
}

/// A run starts in the invariant.
pub proof fn law_run_invariant_initially(job: GpuJob, dry_run: bool, poll_seconds: u64)
    ensures
        run_invariant(initial_run(job, dry_run, poll_seconds)),
{
}

/// Every step keeps the invariant.
pub proof fn law_run_invariant_kept(s: RunView, e: RunEventView)
    requires
        run_invariant(s),
        accepts(s.step, e),
    ensures
        run_invariant(run_next(s, e).0),
{
}

/// A run that ends normally reports a phase that is an end: succeeded,
/// failed or cancelled, never running.
pub proof fn law_finish_reports_terminal_phase(s: RunView, e: RunEventView)
    requires
        run_invariant(s),
        accepts(s.step, e),
    ensures
        run_next(s, e).1 matches RunActionView::Finish { status, .. } ==> is_terminal_phase(
            slurm_phase(status),
        ),
{
}

/// A dry run never creates, uploads, submits, polls or collects anything remote.
pub proof fn law_dry_run_stays_local(s: RunView, e: RunEventView)
    requires
        run_invariant(s),
        s.dry_run,
        accepts(s.step, e),
    ensures
        !(run_next(s, e).1 is CreateRemoteDir),
        !(run_next(s, e).1 is UploadWorkspace),
        !(run_next(s, e).1 is Submit),
        !(run_next(s, e).1 is QueryQueue),
        !(run_next(s, e).1 is QueryAccounting),
        !(run_next(s, e).1 is CollectOutputs),
        !(run_next(s, e).1 is StoreResults),
{
}

/// A failure while the run is live is reported as `RunnerFailed` with the
/// step's context, and the run then exits with that same message.
pub proof fn law_failure_reported_then_exit(s: RunView, cause: Seq<char>, next_event: RunEventView)
    requires
        s.step != RunStep::ReportingFailure,
        s.step != RunStep::Exited,
    ensures
        run_next(s, RunEventView::Failed(cause)).0.step == RunStep::ReportingFailure,
        run_next(s, RunEventView::Failed(cause)).1 == (RunActionView::ReportFailure {
            reason: "RunnerFailed"@,
            message: failure_message(s.step, cause),
        }),
        run_next(run_next(s, RunEventView::Failed(cause)).0, next_event).0.step == RunStep::Exited,
        run_next(run_next(s, RunEventView::Failed(cause)).0, next_event).1 == (RunActionView::Exit {
            error: Some(failure_message(s.step, cause)),
        }),
{
}

/// An exited run stays exited and keeps giving the same answer.
pub proof fn law_exit_is_final(s: RunView, e: RunEventView)
    requires
        s.step == RunStep::Exited,
    ensures
        run_next(s, e).0 == s,
        run_next(s, e).1 == (RunActionView::Exit { error: s.error }),
{
}

// ---------------------------------------------------------------------------
// What each step is for, stated without the definitions it checks
// ---------------------------------------------------------------------------

/// A job phase is an end exactly when it is succeeded, failed or cancelled.
pub proof fn law_terminal_phases(p: GpuJobPhase)
    ensures
        is_terminal_phase(p) <==> (p == GpuJobPhase::Succeeded || p == GpuJobPhase::Failed || p
            == GpuJobPhase::Cancelled),
{
}

/// A job that has not ended (pending, preparing, uploading, submitted or
/// running) is not left alone: the controller first looks up its runner pod
/// `gpujob-runner-<name>` in the key's namespace (`default` when empty).
pub proof fn law_live_job_pod_looked_up(
    key: ObjectRef,
    job: GpuJob,
    config: ControllerConfig,
    r: (ReconcileStep, ReconcileAction),
)
    requires
        job.status.phase != GpuJobPhase::Succeeded,
        job.status.phase != GpuJobPhase::Failed,
        job.status.phase != GpuJobPhase::Cancelled,
        reconcile_transition(ReconcileStep::Start, ReconcileEvent::Begin, key, Some(job), config, r),
    ensures
        r.0 == ReconcileStep::LookingUpPod,
        r.1 matches ReconcileAction::GetPod { namespace, name } && name@ == "gpujob-runner-"@
            + job.metadata.name@ && (key.namespace@.len() == 0 ==> namespace@ == "default"@) && (
        key.namespace@.len() > 0 ==> namespace@ == key.namespace@),
{
}

/// How a Slurm job ended: `COMPLETED` succeeded only with an empty or `0:0`
/// exit code; `CANCELLED`/`CANCELLED+` were cancelled; `FAILED`,
/// `OUT_OF_MEMORY`, `TIMEOUT`, `NODE_FAIL` and `PREEMPTED` failed whatever the
/// exit code; any other state (a `COMPLETED` with another exit code too) has
/// not ended as far as the runner can tell.
pub proof fn law_slurm_end_states(s: SlurmJobStatusView)
    ensures
        (s.state == "FAILED"@ || s.state == "OUT_OF_MEMORY"@ || s.state == "TIMEOUT"@ || s.state
            == "NODE_FAIL"@ || s.state == "PREEMPTED"@) ==> terminal_state_of(s)
            == SlurmTerminalState::Failed,
        (s.state == "CANCELLED"@ || s.state == "CANCELLED+"@) ==> terminal_state_of(s)
            == SlurmTerminalState::Cancelled,
        s.state == "COMPLETED"@ && (s.exit_code.len() == 0 || s.exit_code == "0:0"@) ==> terminal_state_of(s)
            == SlurmTerminalState::Succeeded,
        s.state == "COMPLETED"@ && !(s.exit_code.len() == 0 || s.exit_code == "0:0"@) ==> terminal_state_of(s)
            == SlurmTerminalState::Unknown,
        !(s.state == "COMPLETED"@ || s.state == "CANCELLED"@ || s.state == "CANCELLED+"@ || s.state
            == "FAILED"@ || s.state == "OUT_OF_MEMORY"@ || s.state == "TIMEOUT"@ || s.state
            == "NODE_FAIL"@ || s.state == "PREEMPTED"@) ==> terminal_state_of(s)
            == SlurmTerminalState::Unknown,
{
    reveal_strlit("COMPLETED");
    reveal_strlit("CANCELLED");
    reveal_strlit("CANCELLED+");
    reveal_strlit("FAILED");
    reveal_strlit("OUT_OF_MEMORY");
    reveal_strlit("TIMEOUT");
    reveal_strlit("NODE_FAIL");
    reveal_strlit("PREEMPTED");
    assert("CANCELLED"@[1] != "COMPLETED"@[1]);
    assert("CANCELLED+"@.len() != "COMPLETED"@.len());
    assert("FAILED"@.len() != "COMPLETED"@.len());
    assert("FAILED"@.len() != "CANCELLED"@.len());
    assert("FAILED"@.len() != "CANCELLED+"@.len());
    assert("OUT_OF_MEMORY"@.len() != "COMPLETED"@.len());
    assert("OUT_OF_MEMORY"@.len() != "CANCELLED"@.len());
    assert("OUT_OF_MEMORY"@.len() != "CANCELLED+"@.len());
    assert("TIMEOUT"@.len() != "COMPLETED"@.len());
    assert("TIMEOUT"@.len() != "CANCELLED"@.len());
    assert("TIMEOUT"@.len() != "CANCELLED+"@.len());
    assert("NODE_FAIL"@[0] != "COMPLETED"@[0]);
    assert("NODE_FAIL"@[0] != "CANCELLED"@[0]);
    assert("NODE_FAIL"@.len() != "CANCELLED+"@.len());
    assert("PREEMPTED"@[0] != "COMPLETED"@[0]);
    assert("PREEMPTED"@[0] != "CANCELLED"@[0]);
    assert("PREEMPTED"@.len() != "CANCELLED+"@.len());
}

/// A run of ASCII decimal digits, `'0'` to `'9'`.
pub open spec fn ascii_number(t: Seq<char>) -> bool {
    forall|k: int| 0 <= k < t.len() ==> '0' <= #[trigger] t[k] <= '9'
}

/// Token `i` is the word `job` and the token after it is a number.
pub open spec fn job_before_number(toks: Seq<Seq<char>>, i: int) -> bool {
    &&& 0 <= i
    &&& i + 1 < toks.len()
    &&& toks[i] == "job"@
    &&& ascii_number(toks[i + 1])
}

/// `sbatch` output gives a job id exactly when some token `job` is followed by
/// a number, and the id is the number after the first such `job`.
pub proof fn law_sbatch_job_id_found(toks: Seq<Seq<char>>)
    ensures
        job_id_scan(toks) is Some <==> exists|i: int| job_before_number(toks, i),
        job_id_scan(toks) matches Some(id) ==> exists|i: int|
            #![trigger job_before_number(toks, i)]
            job_before_number(toks, i) && toks[i + 1] == id && forall|j: int|
                0 <= j < i ==> !job_before_number(toks, j),
    decreases toks.len(),
{
    if toks.len() < 2 {
        assert forall|i: int| !job_before_number(toks, i) by {}
    } else if toks[0] == "job"@ && all_digits(toks[1]) {
        assert(job_before_number(toks, 0));
    } else {
        let rest = toks.drop_first();
        law_sbatch_job_id_found(rest);
        assert(!job_before_number(toks, 0));
        assert forall|i: int| #[trigger] job_before_number(toks, i) implies i >= 1 && job_before_number(rest, i - 1) by {
            assert(rest[i - 1] == toks[i]);
            assert(rest[i] == toks[i + 1]);
        }
        assert forall|i: int| #[trigger] job_before_number(rest, i) implies job_before_number(toks, i + 1) by {
            assert(rest[i] == toks[i + 1]);
            assert(rest[i + 1] == toks[i + 2]);
        }
        if job_id_scan(rest) is Some {
            let id = job_id_scan(rest).unwrap();
            let i = choose|i: int|
                #![trigger job_before_number(rest, i)]
                job_before_number(rest, i) && rest[i + 1] == id && forall|j: int|
                    0 <= j < i ==> !job_before_number(rest, j);
            assert(job_before_number(toks, i + 1));
            assert(toks[i + 2] == rest[i + 1]);
            assert forall|j: int| 0 <= j < i + 1 implies !job_before_number(toks, j) by {
                if j > 0 && job_before_number(toks, j) {
                    assert(job_before_number(rest, j - 1));
                }
            }
        }
    }
}

/// Each optional Slurm setting that is set and not empty gets its directive
/// among the lines right after the time limit: `--account`, then `--qos`,
/// `--output` and `--error`.
pub proof fn law_script_optional_directives(job: GpuJob)
    ensures
        job.spec.slurm.account is Some && job.spec.slurm.account.unwrap()@.len() > 0 ==> exists|i: int|
            8 <= i < 12 && #[trigger] script_lines(job)[i] == "#SBATCH --account="@
                + job.spec.slurm.account.unwrap()@,
        job.spec.slurm.qos is Some && job.spec.slurm.qos.unwrap()@.len() > 0 ==> exists|i: int|
            8 <= i < 12 && #[trigger] script_lines(job)[i] == "#SBATCH --qos="@
                + job.spec.slurm.qos.unwrap()@,
        job.spec.slurm.output is Some && job.spec.slurm.output.unwrap()@.len() > 0 ==> exists|i: int|
            8 <= i < 12 && #[trigger] script_lines(job)[i] == "#SBATCH --output="@
                + job.spec.slurm.output.unwrap()@,
        job.spec.slurm.error is Some && job.spec.slurm.error.unwrap()@.len() > 0 ==> exists|i: int|
            8 <= i < 12 && #[trigger] script_lines(job)[i] == "#SBATCH --error="@
                + job.spec.slurm.error.unwrap()@,
{
    let sl = job.spec.slurm;
    let a = opt_line("#SBATCH --account="@, opt_view(sl.account));
    let q = opt_line("#SBATCH --qos="@, opt_view(sl.qos));
    let o = opt_line("#SBATCH --output="@, opt_view(sl.output));
    let e = opt_line("#SBATCH --error="@, opt_view(sl.error));
    let ls = script_lines(job);
    let na = a.len() as int;
    let nq = q.len() as int;
    let no = o.len() as int;
    assert(a.len() <= 1 && q.len() <= 1 && o.len() <= 1 && e.len() <= 1);
    assert(ls.len() > 8 + a.len() + q.len() + o.len() + e.len());
    assert forall|k: int| 0 <= k < a.len() implies ls[8 + k] == a[k] by {}
    assert forall|k: int| 0 <= k < q.len() implies ls[8 + na + k] == q[k] by {}
    assert forall|k: int| 0 <= k < o.len() implies ls[8 + na + nq + k] == o[k] by {}
    assert forall|k: int| 0 <= k < e.len() implies ls[8 + na + nq + no + k] == e[k] by {}
    if let Some(v) = sl.account {
        if v@.len() > 0 {
            assert(ls[8] == "#SBATCH --account="@ + v@);
        }
    }
    if let Some(v) = sl.qos {
        if v@.len() > 0 {
            assert(ls[8 + na] == "#SBATCH --qos="@ + v@);
        }
    }
    if let Some(v) = sl.output {
        if v@.len() > 0 {
            assert(ls[8 + na + nq] == "#SBATCH --output="@ + v@);
        }
    }
    if let Some(v) = sl.error {
        if v@.len() > 0 {
            assert(ls[8 + na + nq + no] == "#SBATCH --error="@ + v@);
        }
    }
}

/// The run after the events `es`, one step each.
pub open spec fn run_through(s: RunView, es: Seq<RunEventView>) -> RunView
    decreases es.len(),
{
    if es.len() == 0 {
        s
    } else {
        run_through(run_next(s, es[0]).0, es.drop_first())
    }
}

/// The remote directory that an action names, if it names one.
pub open spec fn action_dir(a: RunActionView) -> Option<Seq<char>> {
    match a {
        RunActionView::CreateRemoteDir { remote_dir } => Some(remote_dir),
        RunActionView::UploadWorkspace { remote_dir } => Some(remote_dir),
        RunActionView::RecordSubmission { remote_dir, .. } => Some(remote_dir),
        RunActionView::CollectOutputs { remote_dir, .. } => Some(remote_dir),
        _ => None,
    }
}

/// No step changes the run's remote directory, and every action that names a
/// directory, or submits, names that one.
pub proof fn law_step_keeps_remote_dir(s: RunView, e: RunEventView)
    ensures
        run_next(s, e).0.remote_dir == s.remote_dir,
        action_dir(run_next(s, e).1) matches Some(d) ==> d == s.remote_dir,
        run_next(s, e).1 matches RunActionView::Submit { command } ==> command == "cd "@
            + s.remote_dir + " && sbatch job.slurm"@,
{
}

/// Every remote action of a run of `job`, whatever events came before,
/// names the job's one directory `remote_work_dir_of(job)`: the one made,
/// uploaded to, submitted from and collected from.
pub proof fn law_run_uses_one_remote_dir(
    job: GpuJob,
    dry_run: bool,
    poll_seconds: u64,
    es: Seq<RunEventView>,
    e: RunEventView,
)
    ensures
        run_through(initial_run(job, dry_run, poll_seconds), es).remote_dir == remote_work_dir_of(job),
        action_dir(run_next(run_through(initial_run(job, dry_run, poll_seconds), es), e).1) matches Some(d)
            ==> d == remote_work_dir_of(job),
    decreases es.len(),
{
    lemma_run_through_keeps_remote_dir(initial_run(job, dry_run, poll_seconds), es);
    law_step_keeps_remote_dir(run_through(initial_run(job, dry_run, poll_seconds), es), e);
}

proof fn lemma_run_through_keeps_remote_dir(s: RunView, es: Seq<RunEventView>)
    ensures
        run_through(s, es).remote_dir == s.remote_dir,
    decreases es.len(),
{
    if es.len() > 0 {
        law_step_keeps_remote_dir(s, es[0]);
        lemma_run_through_keeps_remote_dir(run_next(s, es[0]).0, es.drop_first());
    }
}

/// When `sacct` reports that the job ended, the run fetches the outputs of
/// that job from its remote directory and keeps the reported status.
pub proof fn law_ended_job_outputs_collected(s: RunView, st: SlurmJobStatusView)
    requires
        s.step == RunStep::QueryingAccounting,
        terminal_state_of(st) != SlurmTerminalState::Unknown,
    ensures
        run_next(s, RunEventView::Accounting(st)).1 == (RunActionView::CollectOutputs {
            remote_dir: s.remote_dir,
            job_id: s.job_id,
        }),
        run_next(s, RunEventView::Accounting(st)).0.step == RunStep::CollectingOutputs,
        run_next(s, RunEventView::Accounting(st)).0.terminal == st,
        run_next(s, RunEventView::Accounting(st)).0.remote_dir == s.remote_dir,
        run_next(s, RunEventView::Accounting(st)).0.job_id == s.job_id,
{
}

/// A deleted job loses its runner pod: the controller's first decision is to
/// delete `gpujob-runner-<name>` in the key's namespace (`default` when empty).
pub proof fn law_deleted_job_pod_deleted(
    key: ObjectRef,
    config: ControllerConfig,
    r: (ReconcileStep, ReconcileAction),
)
    requires
        reconcile_transition(ReconcileStep::Start, ReconcileEvent::Begin, key, None, config, r),
    ensures
        r.0 == ReconcileStep::DeletingPod,
        r.1 matches ReconcileAction::DeletePod { namespace, name } && name@ == "gpujob-runner-"@
            + key.name@ && (key.namespace@.len() == 0 ==> namespace@ == "default"@) && (
        key.namespace@.len() > 0 ==> namespace@ == key.namespace@),
{
}

/// The batch script's fixed directives, in order, then (after the optional
/// ones) a module load per module, the build and the job's command.
pub proof fn law_script_directives_and_steps(job: GpuJob)
    ensures
        script_lines(job)[0] == "#!/bin/bash"@,
        script_lines(job)[1] == "#SBATCH --job-name="@ + job.metadata.name@,
        script_lines(job)[2] == "#SBATCH --partition="@ + job.spec.slurm.partition@,
        script_lines(job)[3] == "#SBATCH --nodes="@ + decimal(job.spec.slurm.nodes as nat),
        script_lines(job)[4] == "#SBATCH --ntasks-per-node="@ + decimal(
            job.spec.slurm.ntasks_per_node as nat,
        ),
        script_lines(job)[5] == "#SBATCH --cpus-per-task="@ + decimal(
            job.spec.slurm.cpus_per_task as nat,
        ),
        script_lines(job)[6] == "#SBATCH --gres="@ + job.spec.slurm.gres@,
        script_lines(job)[7] == "#SBATCH --time="@ + job.spec.slurm.time@,
        forall|k: int|
            0 <= k < job.spec.slurm.modules@.len() ==> exists|i: int|
                0 <= i < script_lines(job).len() && #[trigger] script_lines(job)[i]
                    == "module load "@ + (#[trigger] job.spec.slurm.modules@[k])@,
        exists|i: int| 0 <= i < script_lines(job).len() && #[trigger] script_lines(job)[i] == "bash build.sh"@,
        exists|i: int|
            0 <= i < script_lines(job).len() && #[trigger] script_lines(job)[i] == job.spec.run.command@,
        script_lines(job).last() == Seq::<char>::empty(),
{
    let sl = job.spec.slurm;
    let ls = script_lines(job);
    let head = opt_line("#SBATCH --account="@, opt_view(sl.account)).len() + opt_line(
        "#SBATCH --qos="@,
        opt_view(sl.qos),
    ).len() + opt_line("#SBATCH --output="@, opt_view(sl.output)).len() + opt_line(
        "#SBATCH --error="@,
        opt_view(sl.error),
    ).len();
    let mods = module_lines(strings_view(sl.modules@));
    let m0: int = 8 + head as int + 3;
    let nm: int = mods.len() as int;
    assert(mods.len() == sl.modules@.len());
    assert forall|k: int| 0 <= k < sl.modules@.len() implies exists|i: int|
        0 <= i < ls.len() && #[trigger] ls[i] == "module load "@ + (#[trigger] sl.modules@[k])@ by {
        assert(mods[k] == "module load "@ + strings_view(sl.modules@)[k]);
        assert(ls[m0 + k] == mods[k]);
    }
    assert(ls[m0 + nm + 2] == "bash build.sh"@);
    assert(ls[m0 + nm + 5] == job.spec.run.command@);
}

/// Every step keeps the job id, except the submission, which takes the id
/// that `sbatch` printed; every action naming a job id names the run's.
pub proof fn law_step_keeps_job_id(s: RunView, e: RunEventView)
    ensures
        s.step != RunStep::Submitting ==> run_next(s, e).0.job_id == s.job_id,
        run_next(s, e).1 matches RunActionView::QueryQueue { job_id } ==> job_id == s.job_id,
        run_next(s, e).1 matches RunActionView::QueryAccounting { job_id } ==> job_id == s.job_id,
        run_next(s, e).1 matches RunActionView::CollectOutputs { job_id, .. } ==> job_id == s.job_id,
        run_next(s, e).1 matches RunActionView::StoreResults { job_id, .. } ==> job_id == s.job_id,
        run_next(s, e).1 matches RunActionView::RecordSubmission { job_id, .. } ==> (e matches RunEventView::CommandOutput(out) && job_id_scan(tokens(out)) == Some(job_id) && run_next(s, e).0.job_id == job_id),
        run_next(s, e).1 matches RunActionView::Sleep { seconds } ==> seconds == s.poll_seconds,
        run_next(s, e).0.poll_seconds == s.poll_seconds,
{
}

} // verus!
