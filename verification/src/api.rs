use vstd::prelude::*;

use crate::strmap::StringMap;
use crate::text::{chars_of, has_dot_dot, is_blank, str_is_blank, trim, trim_chars, contains_dot_dot};

verus! {

/// API group of the GPU plugin's resources.
pub const GROUP: &'static str = "gpu.minik8s.io";

/// API version of the GPU plugin's resources.
pub const VERSION: &'static str = "v1alpha1";

/// `apiVersion` of the plugin's resources: group and version joined by `/`.
pub const API_VERSION: &'static str = "gpu.minik8s.io/v1alpha1";

pub open spec fn opt_view(o: Option<String>) -> Option<Seq<char>> {
    match o {
        Some(s) => Some(s@),
        None => None,
    }
}

pub open spec fn strings_view(v: Seq<String>) -> Seq<Seq<char>> {
    v.map_values(|s: String| s@)
}

/// A copy of an optional string.
pub fn copy_opt(o: &Option<String>) -> (r: Option<String>)
    ensures
        opt_view(r) == opt_view(*o),
{
    match o {
        Some(s) => Some(s.clone()),
        None => None,
    }
}

/// `apiVersion` and `kind` of an object.
#[derive(Debug, Default)]
pub struct TypeMeta {
    pub api_version: String,
    pub kind: String,
}

/// A reference from an owned object to its owner.
#[derive(Debug, Default)]
pub struct OwnerReference {
    pub api_version: String,
    pub kind: String,
    pub name: String,
    pub uid: Option<String>,
}

/// The metadata an object carries: name, namespace, uid, labels and owners.
#[derive(Debug, Default)]
pub struct ObjectMeta {
    pub name: String,
    pub namespace: String,
    pub uid: Option<String>,
    pub labels: StringMap,
    pub owner_references: Vec<OwnerReference>,
}

/// A namespaced key of an object, as the controller's queue holds it.
#[derive(Debug, Default)]
pub struct ObjectRef {
    pub namespace: String,
    pub name: String,
}

/// Login material for the HPC cluster.
#[derive(Debug, Default)]
pub struct HpcCredential {
    pub types: TypeMeta,
    pub metadata: ObjectMeta,
    pub spec: HpcCredentialSpec,
}

#[derive(Debug, Default)]
pub struct HpcCredentialSpec {
    pub username: String,
    /// A password to log in with, used when no private key is given.
    pub password: String,
    pub private_key: String,
    pub known_hosts: String,
}

/// A CUDA job to run on a remote Slurm cluster.
#[derive(Debug, Default)]
pub struct GpuJob {
    pub types: TypeMeta,
    pub metadata: ObjectMeta,
    pub spec: GpuJobSpec,
    pub status: GpuJobStatus,
}

#[derive(Debug, Default)]
pub struct GpuJobSpec {
    pub credential_ref: CredentialRef,
    pub hpc: HpcSpec,
    pub slurm: SlurmSpec,
    pub source: GpuJobSourceSpec,
    pub run: GpuJobRunSpec,
}

#[derive(Debug, Default)]
pub struct CredentialRef {
    pub name: String,
}

#[derive(Debug, Default)]
pub struct HpcSpec {
    pub login_host: String,
}

#[derive(Debug, Default)]
pub struct SlurmSpec {
    pub partition: String,
    /// The Slurm account the job is charged to.
    pub account: Option<String>,
    pub qos: Option<String>,
    pub nodes: u32,
    pub ntasks_per_node: u32,
    pub cpus_per_task: u32,
    pub gres: String,
    pub time: String,
    pub output: Option<String>,
    pub error: Option<String>,
    pub modules: Vec<String>,
}

#[derive(Debug, Default)]
pub struct GpuJobSourceSpec {
    pub files: Vec<GpuJobSourceFile>,
}

#[derive(Debug, Default)]
pub struct GpuJobSourceFile {
    pub path: String,
    pub content: String,
    pub mode: Option<String>,
}

#[derive(Debug, Default)]
pub struct GpuJobRunSpec {
    pub command: String,
    pub collect: Vec<String>,
}

/// The lifecycle phase of a GPU job.
#[derive(Debug, Clone, Copy, PartialEq, Eq, Structural)]
pub enum GpuJobPhase {
    Pending,
    Preparing,
    Uploading,
    Submitted,
    Running,
    Succeeded,
    Failed,
    Cancelled,
}

impl Default for GpuJobPhase {
    fn default() -> (p: GpuJobPhase)
        ensures
            p == GpuJobPhase::Pending,
    {
        GpuJobPhase::Pending
    }
}

/// A point in time: seconds since the Unix epoch and the nanoseconds past them.
#[derive(Debug, Clone, Copy, PartialEq, Eq, Structural)]
pub struct Timestamp {
    pub secs: i64,
    pub nanos: u32,
}

/// What the plugin reports of a GPU job.
#[derive(Debug)]
pub struct GpuJobStatus {
    pub phase: GpuJobPhase,
    pub reason: String,
    pub message: String,
    pub runner_pod: String,
    pub slurm_job_id: String,
    pub slurm_state: String,
    pub query_command: String,
    pub remote_work_dir: String,
    pub elapsed: String,
    pub time_limit: String,
    pub exit_code: String,
    pub max_rss: String,
    pub req_mem: String,
    pub stdout_tail: String,
    pub stderr_tail: String,
    pub result_config_map: String,
    pub last_probe_time: Option<Timestamp>,
    pub submitted_time: Option<Timestamp>,
    pub start_time: Option<Timestamp>,
    pub completion_time: Option<Timestamp>,
}

/// The view of a `GpuJobStatus`: each string by its characters.
pub struct GpuJobStatusView {
    pub phase: GpuJobPhase,
    pub reason: Seq<char>,
    pub message: Seq<char>,
    pub runner_pod: Seq<char>,
    pub slurm_job_id: Seq<char>,
    pub slurm_state: Seq<char>,
    pub query_command: Seq<char>,
    pub remote_work_dir: Seq<char>,
    pub elapsed: Seq<char>,
    pub time_limit: Seq<char>,
    pub exit_code: Seq<char>,
    pub max_rss: Seq<char>,
    pub req_mem: Seq<char>,
    pub stdout_tail: Seq<char>,
    pub stderr_tail: Seq<char>,
    pub result_config_map: Seq<char>,
    pub last_probe_time: Option<Timestamp>,
    pub submitted_time: Option<Timestamp>,
    pub start_time: Option<Timestamp>,
    pub completion_time: Option<Timestamp>,
}

impl View for GpuJobStatus {
    type V = GpuJobStatusView;

    open spec fn view(&self) -> GpuJobStatusView {
        GpuJobStatusView {
            phase: self.phase,
            reason: self.reason@,
            message: self.message@,
            runner_pod: self.runner_pod@,
            slurm_job_id: self.slurm_job_id@,
            slurm_state: self.slurm_state@,
            query_command: self.query_command@,
            remote_work_dir: self.remote_work_dir@,
            elapsed: self.elapsed@,
            time_limit: self.time_limit@,
            exit_code: self.exit_code@,
            max_rss: self.max_rss@,
            req_mem: self.req_mem@,
            stdout_tail: self.stdout_tail@,
            stderr_tail: self.stderr_tail@,
            result_config_map: self.result_config_map@,
            last_probe_time: self.last_probe_time,
            submitted_time: self.submitted_time,
            start_time: self.start_time,
            completion_time: self.completion_time,
        }
    }
}

/// The status of a job that nothing has reported on yet.
pub open spec fn empty_status() -> GpuJobStatusView {
    GpuJobStatusView {
        phase: GpuJobPhase::Pending,
        reason: Seq::empty(),
        message: Seq::empty(),
        runner_pod: Seq::empty(),
        slurm_job_id: Seq::empty(),
        slurm_state: Seq::empty(),
        query_command: Seq::empty(),
        remote_work_dir: Seq::empty(),
        elapsed: Seq::empty(),
        time_limit: Seq::empty(),
        exit_code: Seq::empty(),
        max_rss: Seq::empty(),
        req_mem: Seq::empty(),
        stdout_tail: Seq::empty(),
        stderr_tail: Seq::empty(),
        result_config_map: Seq::empty(),
        last_probe_time: None,
        submitted_time: None,
        start_time: None,
        completion_time: None,
    }
}

impl Default for GpuJobStatus {
    fn default() -> (s: GpuJobStatus)
        ensures
            s@ == empty_status(),
    {
        GpuJobStatus {
            phase: GpuJobPhase::Pending,
            reason: String::new(),
            message: String::new(),
            runner_pod: String::new(),
            slurm_job_id: String::new(),
            slurm_state: String::new(),
            query_command: String::new(),
            remote_work_dir: String::new(),
            elapsed: String::new(),
            time_limit: String::new(),
            exit_code: String::new(),
            max_rss: String::new(),
            req_mem: String::new(),
            stdout_tail: String::new(),
            stderr_tail: String::new(),
            result_config_map: String::new(),
            last_probe_time: None,
            submitted_time: None,
            start_time: None,
            completion_time: None,
        }
    }
}

// ---------------------------------------------------------------------------
// Resource identity
// ---------------------------------------------------------------------------

impl HpcCredential {
    pub fn kind() -> (r: &'static str)
        ensures
            r@ == "HPCCredential"@,
    {
        "HPCCredential"
    }

    pub fn plural() -> (r: &'static str)
        ensures
            r@ == "hpccredentials"@,
    {
        "hpccredentials"
    }

    pub fn group() -> (r: &'static str)
        ensures
            r@ == GROUP@,
    {
        GROUP
    }

    pub fn version() -> (r: &'static str)
        ensures
            r@ == VERSION@,
    {
        VERSION
    }

    pub fn metadata(&self) -> (r: &ObjectMeta)
        ensures
            r == &self.metadata,
    {
        &self.metadata
    }

    pub fn metadata_mut(&mut self) -> (r: &mut ObjectMeta)
        ensures
            *r == old(self).metadata,
            *final(self) == (HpcCredential { metadata: *final(r), ..*old(self) }),
    {
        &mut self.metadata
    }
}

impl GpuJob {
    pub fn kind() -> (r: &'static str)
        ensures
            r@ == "GPUJob"@,
    {
        "GPUJob"
    }

    pub fn plural() -> (r: &'static str)
        ensures
            r@ == "gpujobs"@,
    {
        "gpujobs"
    }

    pub fn group() -> (r: &'static str)
        ensures
            r@ == GROUP@,
    {
        GROUP
    }

    pub fn version() -> (r: &'static str)
        ensures
            r@ == VERSION@,
    {
        VERSION
    }

    pub fn metadata(&self) -> (r: &ObjectMeta)
        ensures
            r == &self.metadata,
    {
        &self.metadata
    }

    pub fn metadata_mut(&mut self) -> (r: &mut ObjectMeta)
        ensures
            *r == old(self).metadata,
            *final(self) == (GpuJob { metadata: *final(r), ..*old(self) }),
    {
        &mut self.metadata
    }

    pub fn status(&self) -> (r: &GpuJobStatus)
        ensures
            r == &self.status,
    {
        &self.status
    }

    pub fn status_mut(&mut self) -> (r: &mut GpuJobStatus)
        ensures
            *r == old(self).status,
            *final(self) == (GpuJob { status: *final(r), ..*old(self) }),
    {
        &mut self.status
    }

    /// The reference that objects this job owns carry: this job's
    /// `apiVersion`, kind, name and uid.
    pub fn owner_ref(&self) -> (r: OwnerReference)
        ensures
            r.api_version@ == API_VERSION@,
            r.kind@ == "GPUJob"@,
            r.name@ == self.metadata.name@,
            opt_view(r.uid) == opt_view(self.metadata.uid),
    {
        OwnerReference {
            api_version: String::from_str(API_VERSION),
            kind: String::from_str("GPUJob"),
            name: self.metadata.name.clone(),
            uid: copy_opt(&self.metadata.uid),
        }
    }
}

// ---------------------------------------------------------------------------
// Validation
// ---------------------------------------------------------------------------

/// Why a spec was refused.
#[derive(Debug, PartialEq, Eq)]
pub enum ValidationError {
    /// The named field is blank.
    Required(String),
    /// `nodes`, `ntasksPerNode` or `cpusPerTask` is zero.
    ResourcesNotPositive,
    /// The job lists no source file.
    NoSourceFiles,
    /// The named path field is blank.
    EmptyPath(String),
    /// The named path field is absolute or holds `..`.
    PathOutsideWorkspace(String),
}

/// The view of a `ValidationError`.
pub enum ValidationFault {
    Required(Seq<char>),
    ResourcesNotPositive,
    NoSourceFiles,
    EmptyPath(Seq<char>),
    PathOutsideWorkspace(Seq<char>),
}

impl View for ValidationError {
    type V = ValidationFault;

    open spec fn view(&self) -> ValidationFault {
        match self {
            ValidationError::Required(f) => ValidationFault::Required(f@),
            ValidationError::ResourcesNotPositive => ValidationFault::ResourcesNotPositive,
            ValidationError::NoSourceFiles => ValidationFault::NoSourceFiles,
            ValidationError::EmptyPath(f) => ValidationFault::EmptyPath(f@),
            ValidationError::PathOutsideWorkspace(f) => ValidationFault::PathOutsideWorkspace(f@),
        }
    }
}

pub open spec fn fault_message(f: ValidationFault) -> Seq<char> {
    match f {
        ValidationFault::Required(field) => field + " is required"@,
        ValidationFault::ResourcesNotPositive =>
            "gpujob spec.slurm nodes, ntasksPerNode and cpusPerTask must be greater than 0"@,
        ValidationFault::NoSourceFiles => "gpujob spec.source.files must not be empty"@,
        ValidationFault::EmptyPath(field) => field + " must not be empty"@,
        ValidationFault::PathOutsideWorkspace(field) => field
            + " must be a relative path inside the job workspace"@,
    }
}

impl ValidationError {
    /// The message that the error reports.
    pub fn message(&self) -> (r: String)
        ensures
            r@ == fault_message(self@),
    {
        match self {
            ValidationError::Required(field) => field.clone().concat(" is required"),
            ValidationError::ResourcesNotPositive => String::from_str(
                "gpujob spec.slurm nodes, ntasksPerNode and cpusPerTask must be greater than 0",
            ),
            ValidationError::NoSourceFiles => String::from_str(
                "gpujob spec.source.files must not be empty",
            ),
            ValidationError::EmptyPath(field) => field.clone().concat(" must not be empty"),
            ValidationError::PathOutsideWorkspace(field) => field.clone().concat(
                " must be a relative path inside the job workspace",
            ),
        }
    }
}

/// Why `path` is refused as a relative path inside the workspace, if it is.
pub open spec fn relative_path_fault(path: Seq<char>, field: Seq<char>) -> Option<ValidationFault> {
    let trimmed = trim(path);
    if trimmed.len() == 0 {
        Some(ValidationFault::EmptyPath(field))
    } else if trimmed[0] == '/' || has_dot_dot(trimmed) {
        Some(ValidationFault::PathOutsideWorkspace(field))
    } else {
        None
    }
}

/// The first refused path of `paths`, in order.
pub open spec fn first_path_fault(paths: Seq<Seq<char>>, field: Seq<char>) -> Option<ValidationFault>
    decreases paths.len(),
{
    if paths.len() == 0 {
        None
    } else {
        match relative_path_fault(paths[0], field) {
            Some(f) => Some(f),
            None => first_path_fault(paths.drop_first(), field),
        }
    }
}

/// Accepts `path` when, trimmed, it is non-empty, does not start with `/`
/// and holds no `..`.
pub fn validate_relative_path(path: &str, field: &str) -> (r: Result<(), ValidationError>)
    ensures
        match r {
            Ok(()) => relative_path_fault(path@, field@) is None,
            Err(e) => relative_path_fault(path@, field@) == Some(e@),
        },
{
    let pc = chars_of(path);
    let trimmed = trim_chars(&pc);
    if trimmed.len() == 0 {
        return Err(ValidationError::EmptyPath(String::from_str(field)));
    }
    if trimmed[0] == '/' || contains_dot_dot(&trimmed) {
        return Err(ValidationError::PathOutsideWorkspace(String::from_str(field)));
    }
    Ok(())
}

/// The default count of nodes, tasks per node and CPUs per task.
pub fn default_one() -> (r: u32)
    ensures
        r == 1,
{
    1
}

pub open spec fn file_paths(files: Seq<GpuJobSourceFile>) -> Seq<Seq<char>> {
    files.map_values(|f: GpuJobSourceFile| f.path@)
}

/// The first reason, in the order of the checks, why a credential is refused.
pub open spec fn credential_fault(c: HpcCredentialSpec) -> Option<ValidationFault> {
    if is_blank(c.username@) {
        Some(ValidationFault::Required("hpccredential spec.username"@))
    } else if is_blank(c.password@) && is_blank(c.private_key@) {
        Some(ValidationFault::Required("hpccredential spec.password or spec.privateKey"@))
    } else {
        None
    }
}

/// The first reason, in the order of the checks, why a job spec is refused.
pub open spec fn gpujob_fault(s: GpuJobSpec) -> Option<ValidationFault> {
    if is_blank(s.credential_ref.name@) {
        Some(ValidationFault::Required("gpujob spec.credentialRef.name"@))
    } else if is_blank(s.hpc.login_host@) {
        Some(ValidationFault::Required("gpujob spec.hpc.loginHost"@))
    } else if is_blank(s.slurm.partition@) {
        Some(ValidationFault::Required("gpujob spec.slurm.partition"@))
    } else if is_blank(s.slurm.gres@) {
        Some(ValidationFault::Required("gpujob spec.slurm.gres"@))
    } else if is_blank(s.slurm.time@) {
        Some(ValidationFault::Required("gpujob spec.slurm.time"@))
    } else if s.slurm.nodes == 0 || s.slurm.ntasks_per_node == 0 || s.slurm.cpus_per_task == 0 {
        Some(ValidationFault::ResourcesNotPositive)
    } else if s.source.files@.len() == 0 {
        Some(ValidationFault::NoSourceFiles)
    } else if first_path_fault(file_paths(s.source.files@), "gpujob spec.source.files.path"@) is Some {
        first_path_fault(file_paths(s.source.files@), "gpujob spec.source.files.path"@)
    } else if is_blank(s.run.command@) {
        Some(ValidationFault::Required("gpujob spec.run.command"@))
    } else {
        first_path_fault(strings_view(s.run.collect@), "gpujob spec.run.collect"@)
    }
}

/// Checks each path of `paths` in order; the first refused one is the error.
fn validate_paths(paths: &Vec<&str>, field: &str) -> (r: Result<(), ValidationError>)
    ensures
        match r {
            Ok(()) => first_path_fault(paths@.map_values(|p: &str| p@), field@) is None,
            Err(e) => first_path_fault(paths@.map_values(|p: &str| p@), field@) == Some(e@),
        },
{
    let ghost all = paths@.map_values(|p: &str| p@);
    let mut i: usize = 0;
    assert(all.skip(0) =~= all);
    while i < paths.len()
        invariant
            i <= paths.len(),
            all == paths@.map_values(|p: &str| p@),
            first_path_fault(all, field@) == first_path_fault(all.skip(i as int), field@),
        decreases paths.len() - i,
    {
        assert(all.skip(i as int)[0] == paths@[i as int]@);
        assert(all.skip(i as int).drop_first() =~= all.skip(i + 1));
        validate_relative_path(paths[i], field)?;
        i = i + 1;
    }
    Ok(())
}

impl HpcCredential {
    /// Whether the credential lists known hosts (anything but whitespace).
    pub fn has_known_hosts(&self) -> (r: bool)
        ensures
            r == !is_blank(self.spec.known_hosts@),
    {
        !str_is_blank(self.spec.known_hosts.as_str())
    }

    /// Whether the credential logs in with its private key (it is not blank);
    /// otherwise it logs in with its password.
    pub fn uses_private_key(&self) -> (r: bool)
        ensures
            r == !is_blank(self.spec.private_key@),
    {
        !str_is_blank(self.spec.private_key.as_str())
    }

    /// Accepts a credential with a non-blank username and a non-blank
    /// password or private key.
    pub fn validate_spec(&self) -> (r: Result<(), ValidationError>)
        ensures
            match r {
                Ok(()) => credential_fault(self.spec) is None,
                Err(e) => credential_fault(self.spec) == Some(e@),
            },
    {
        if str_is_blank(self.spec.username.as_str()) {
            return Err(ValidationError::Required(String::from_str("hpccredential spec.username")));
        }
        if str_is_blank(self.spec.password.as_str()) && str_is_blank(
            self.spec.private_key.as_str(),
        ) {
            return Err(
                ValidationError::Required(
                    String::from_str("hpccredential spec.password or spec.privateKey"),
                ),
            );
        }
        Ok(())
    }
}

impl GpuJob {
    /// Accepts a job whose required fields are set, whose counts are positive,
    /// which has source files, and whose paths stay inside the workspace.
    pub fn validate_spec(&self) -> (r: Result<(), ValidationError>)
        ensures
            match r {
                Ok(()) => gpujob_fault(self.spec) is None,
                Err(e) => gpujob_fault(self.spec) == Some(e@),
            },
    {
        let s = &self.spec;
        if str_is_blank(s.credential_ref.name.as_str()) {
            return Err(ValidationError::Required(String::from_str("gpujob spec.credentialRef.name")));
        }
        if str_is_blank(s.hpc.login_host.as_str()) {
            return Err(ValidationError::Required(String::from_str("gpujob spec.hpc.loginHost")));
        }
        if str_is_blank(s.slurm.partition.as_str()) {
            return Err(ValidationError::Required(String::from_str("gpujob spec.slurm.partition")));
        }
        if str_is_blank(s.slurm.gres.as_str()) {
            return Err(ValidationError::Required(String::from_str("gpujob spec.slurm.gres")));
        }
        if str_is_blank(s.slurm.time.as_str()) {
            return Err(ValidationError::Required(String::from_str("gpujob spec.slurm.time")));
        }
        if s.slurm.nodes == 0 || s.slurm.ntasks_per_node == 0 || s.slurm.cpus_per_task == 0 {
            return Err(ValidationError::ResourcesNotPositive);
        }
        if s.source.files.len() == 0 {
            return Err(ValidationError::NoSourceFiles);
        }
        let mut file_paths_vec: Vec<&str> = Vec::new();
        let mut i: usize = 0;
        while i < s.source.files.len()
            invariant
                i <= s.source.files.len(),
                file_paths_vec@.map_values(|p: &str| p@) == file_paths(s.source.files@).take(i as int),
            decreases s.source.files.len() - i,
        {
            let p = s.source.files[i].path.as_str();
            let ghost before = file_paths_vec@;
            file_paths_vec.push(p);
            assert(file_paths(s.source.files@)[i as int] == p@);
            assert(file_paths_vec@.map_values(|p: &str| p@) =~= before.map_values(|p: &str| p@).push(p@));
            assert(file_paths_vec@.map_values(|p: &str| p@) =~= file_paths(s.source.files@).take(i + 1));
            i = i + 1;
        }
        assert(file_paths(s.source.files@).take(s.source.files.len() as int) =~= file_paths(s.source.files@));
        validate_paths(&file_paths_vec, "gpujob spec.source.files.path")?;
        if str_is_blank(s.run.command.as_str()) {
            return Err(ValidationError::Required(String::from_str("gpujob spec.run.command")));
        }
        let mut collect_vec: Vec<&str> = Vec::new();
        let mut j: usize = 0;
        while j < s.run.collect.len()
            invariant
                j <= s.run.collect.len(),
                collect_vec@.map_values(|p: &str| p@) == strings_view(s.run.collect@).take(j as int),
            decreases s.run.collect.len() - j,
        {
            let p = s.run.collect[j].as_str();
            let ghost before = collect_vec@;
            collect_vec.push(p);
            assert(strings_view(s.run.collect@)[j as int] == p@);
            assert(collect_vec@.map_values(|p: &str| p@) =~= before.map_values(|p: &str| p@).push(p@));
            assert(collect_vec@.map_values(|p: &str| p@) =~= strings_view(s.run.collect@).take(j + 1));
            j = j + 1;
        }
        assert(strings_view(s.run.collect@).take(s.run.collect.len() as int) =~= strings_view(s.run.collect@));
        validate_paths(&collect_vec, "gpujob spec.run.collect")?;
        Ok(())
    }
}

} // verus!
