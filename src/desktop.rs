//! The desktop backend: every operation is decided here as a plan of file
//! operations; the host performs the plan and reports how it went.
use vstd::prelude::*;

use crate::error::{Error, ErrorKind, ErrorModel};
use crate::models::{
    opt_view, DownloadPrivateRequest, DownloadPublicRequest, DownloadResponse, PingRequest,
    PingResponse, ResponseModel, SaveFilePrivateFromBufferRequest, SaveFilePrivateFromPathRequest,
    SaveFilePublicFromBufferRequest, SaveFilePublicFromPathRequest,
};
use crate::copy::{
    actions, lemma_missing_source_copies_nothing, run, start, ActionModel, CopyAction, CopyJob,
    JobModel, Outcome,
};
use crate::paths::{
    final_component, is_valid_file_name, join, join_path, last_component, private_dir,
    valid_file_name,
};
use crate::text::{concat, owned};

verus! {

/// Which storage a file goes to.
#[derive(Clone, Copy, Debug, PartialEq, Eq, Structural)]
pub enum Scope {
    /// Under `<app-data-root>/private/`.
    Private,
    /// Directly under the downloads directory.
    Public,
}

/// The directory that holds the files of `scope`, given its root.
pub open spec fn scope_dir(scope: Scope, root: Seq<char>) -> Seq<char> {
    match scope {
        Scope::Private => private_dir(root),
        Scope::Public => root,
    }
}

/// A write of `data` to `path`, after the directory `create_dir` (and its
/// parents) has been made.
#[derive(Debug)]
pub struct WritePlan {
    pub create_dir: String,
    pub path: String,
    pub data: Vec<u8>,
    pub file_name: String,
}

pub struct WritePlanModel {
    pub create_dir: Seq<char>,
    pub path: Seq<char>,
    pub data: Seq<u8>,
    pub file_name: Seq<char>,
}

impl View for WritePlan {
    type V = WritePlanModel;

    open spec fn view(&self) -> WritePlanModel {
        WritePlanModel {
            create_dir: self.create_dir@,
            path: self.path@,
            data: self.data@,
            file_name: self.file_name@,
        }
    }
}

/// The plan for saving `data` as `name` in `scope`, whose root is `root`
/// when it could be resolved.
pub open spec fn buffer_plan(scope: Scope, root: Option<Seq<char>>, name: Seq<char>, data: Seq<u8>) -> Result<
    WritePlanModel,
    ErrorKind,
> {
    match root {
        None => Err(ErrorKind::NotFound),
        Some(r) => if !valid_file_name(name) {
            Err(ErrorKind::Io)
        } else {
            Ok(
                WritePlanModel {
                    create_dir: scope_dir(scope, r),
                    path: join(scope_dir(scope, r), name),
                    data,
                    file_name: name,
                },
            )
        },
    }
}

/// The response owed once a plan has been carried out.
pub open spec fn completed(plan: WritePlanModel) -> ResponseModel {
    ResponseModel { file_name: plan.file_name, path: Some(plan.path), uri: None }
}

/// The files of a file system, by path, after a plan was carried out: the
/// file at the plan's path holds exactly the plan's data.
pub open spec fn apply_write(fs: Map<Seq<char>, Seq<u8>>, plan: WritePlanModel) -> Map<
    Seq<char>,
    Seq<u8>,
> {
    fs.insert(plan.path, plan.data)
}

pub open spec fn invalid_name_message(name: Seq<char>) -> Seq<char> {
    "invalid file name: "@ + name
}

pub open spec fn missing_root_message(scope: Scope) -> Seq<char> {
    match scope {
        Scope::Private => "App data directory not found"@,
        Scope::Public => "Downloads directory not found"@,
    }
}

/// `r` is the plan `expected` when that is a plan, and otherwise an error of
/// the expected kind with its message.
pub open spec fn plan_answers(
    r: Result<WritePlan, Error>,
    expected: Result<WritePlanModel, ErrorKind>,
    scope: Scope,
    name: Seq<char>,
) -> bool {
    match r {
        Ok(p) => expected == Ok::<WritePlanModel, ErrorKind>(p@),
        Err(e) => {
            &&& expected == Err::<WritePlanModel, ErrorKind>(e@.kind)
            &&& e@.message == if e@.kind == ErrorKind::NotFound {
                missing_root_message(scope)
            } else {
                invalid_name_message(name)
            }
        },
    }
}

/// The name a copied file is stored under: the one asked for, else the
/// source's own final name.
pub open spec fn target_name(source: Seq<char>, name: Option<Seq<char>>) -> Seq<char> {
    match name {
        Some(n) => n,
        None => last_component(source),
    }
}

/// The copy job for storing the file at `source` in `scope`.
pub open spec fn path_plan(
    scope: Scope,
    root: Option<Seq<char>>,
    source: Seq<char>,
    name: Option<Seq<char>>,
) -> Result<JobModel, ErrorKind> {
    match root {
        None => Err(ErrorKind::NotFound),
        Some(r) => if !valid_file_name(target_name(source, name)) {
            Err(ErrorKind::Io)
        } else {
            Ok(
                start(
                    source,
                    join(scope_dir(scope, r), target_name(source, name)),
                    Some(scope_dir(scope, r)),
                ),
            )
        },
    }
}

/// `r` is the job `expected` when that is a job, and otherwise an error of
/// the expected kind with its message.
pub open spec fn job_answers(
    r: Result<CopyJob, Error>,
    expected: Result<JobModel, ErrorKind>,
    scope: Scope,
    name: Seq<char>,
) -> bool {
    match r {
        Ok(j) => expected == Ok::<JobModel, ErrorKind>(j@),
        Err(e) => {
            &&& expected == Err::<JobModel, ErrorKind>(e@.kind)
            &&& e@.message == if e@.kind == ErrorKind::NotFound {
                missing_root_message(scope)
            } else {
                invalid_name_message(name)
            }
        },
    }
}

impl WritePlan {
    /// Turns what the host reports of carrying out the plan into the answer.
    pub fn complete(self, outcome: Result<(), String>) -> (r: Result<DownloadResponse, Error>)
        ensures
            match outcome {
                Ok(_) => r is Ok && r->Ok_0@ == completed(self@),
                Err(e) => r is Err && r->Err_0@ == (ErrorModel { kind: ErrorKind::Io, message: e@ }),
            },
    {
        match outcome {
            Ok(_) => Ok(DownloadResponse { file_name: self.file_name, path: Some(self.path), uri: None }),
            Err(e) => Err(Error::Io(e)),
        }
    }
}

/// The desktop backend, with the storage roots resolved when it was set up.
#[derive(Debug)]
pub struct Pldownloader {
    /// The application-scoped data directory, if the platform has one.
    pub app_data_dir: Option<String>,
    /// The user's downloads directory, if the platform has one.
    pub download_dir: Option<String>,
}

impl Pldownloader {
    pub fn new(app_data_dir: Option<String>, download_dir: Option<String>) -> (r: Pldownloader)
        ensures
            r.app_data_dir == app_data_dir,
            r.download_dir == download_dir,
    {
        Pldownloader { app_data_dir, download_dir }
    }

    pub open spec fn root(&self, scope: Scope) -> Option<Seq<char>> {
        match scope {
            Scope::Private => opt_view(self.app_data_dir),
            Scope::Public => opt_view(self.download_dir),
        }
    }

    /// Echoes the request's value; cannot fail.
    pub fn ping(&self, payload: PingRequest) -> (r: Result<PingResponse, Error>)
        ensures
            r is Ok,
            r->Ok_0.value == payload.value,
    {
        Ok(PingResponse { value: payload.value })
    }

    /// No network transfer is available on this backend.
    pub fn download_private(&self, payload: DownloadPrivateRequest) -> (r: Result<DownloadResponse, Error>)
        ensures
            r is Err,
            r->Err_0@ == (ErrorModel {
                kind: ErrorKind::Unsupported,
                message: "download_private not implemented on desktop"@,
            }),
    {
        Err(Error::Unsupported(owned("download_private not implemented on desktop")))
    }

    /// No network transfer is available on this backend.
    pub fn download_public(&self, payload: DownloadPublicRequest) -> (r: Result<DownloadResponse, Error>)
        ensures
            r is Err,
            r->Err_0@ == (ErrorModel {
                kind: ErrorKind::Unsupported,
                message: "download_public not implemented on desktop"@,
            }),
    {
        Err(Error::Unsupported(owned("download_public not implemented on desktop")))
    }

    /// The plan for saving `data` as `file_name` in `scope`.
    pub fn plan_buffer(&self, scope: Scope, data: Vec<u8>, file_name: String) -> (r: Result<
        WritePlan,
        Error,
    >)
        ensures
            plan_answers(r, buffer_plan(scope, self.root(scope), file_name@, data@), scope, file_name@),
    {
        let root = match scope {
            Scope::Private => &self.app_data_dir,
            Scope::Public => &self.download_dir,
        };
        match root {
            None => {
                let m = match scope {
                    Scope::Private => owned("App data directory not found"),
                    Scope::Public => owned("Downloads directory not found"),
                };
                Err(Error::NotFound(m))
            },
            Some(r) => {
                if !is_valid_file_name(&file_name) {
                    return Err(Error::Io(concat("invalid file name: ", &file_name)));
                }
                let dir = match scope {
                    Scope::Private => join_path(r, "private"),
                    Scope::Public => owned(r),
                };
                proof {
                    reveal_strlit("private");
                }
                let path = join_path(&dir, &file_name);
                assert(dir@ == scope_dir(scope, r@));
                let p = WritePlan { create_dir: dir, path, data, file_name };
                assert(buffer_plan(scope, self.root(scope), p.file_name@, p.data@) == Ok::<WritePlanModel, ErrorKind>(p@));
                Ok(p)
            },
        }
    }

    /// The plan for saving the buffer under `<app-data-root>/private/`.
    pub fn save_file_private_from_buffer(&self, payload: SaveFilePrivateFromBufferRequest) -> (r:
        Result<WritePlan, Error>)
        ensures
            plan_answers(r, buffer_plan(Scope::Private, self.root(Scope::Private), payload.file_name@, payload.data@), Scope::Private, payload.file_name@),
    {
        self.plan_buffer(Scope::Private, payload.data, payload.file_name)
    }

    /// The plan for saving the buffer directly under the downloads directory;
    /// the MIME type is not used here.
    pub fn save_file_public_from_buffer(&self, payload: SaveFilePublicFromBufferRequest) -> (r:
        Result<WritePlan, Error>)
        ensures
            plan_answers(r, buffer_plan(Scope::Public, self.root(Scope::Public), payload.file_name@, payload.data@), Scope::Public, payload.file_name@),
    {
        self.plan_buffer(Scope::Public, payload.data, payload.file_name)
    }
}

impl Pldownloader {
    /// The job that copies `source_path` into `scope`, as `file_name` or under
    /// the source's final name.
    pub fn plan_path(&self, scope: Scope, source_path: String, file_name: Option<String>) -> (r:
        Result<CopyJob, Error>)
        ensures
            job_answers(
                r,
                path_plan(scope, self.root(scope), source_path@, opt_view(file_name)),
                scope,
                target_name(source_path@, opt_view(file_name)),
            ),
    {
        let root = match scope {
            Scope::Private => &self.app_data_dir,
            Scope::Public => &self.download_dir,
        };
        match root {
            None => {
                let m = match scope {
                    Scope::Private => owned("App data directory not found"),
                    Scope::Public => owned("Downloads directory not found"),
                };
                Err(Error::NotFound(m))
            },
            Some(r) => {
                let name = match file_name {
                    Some(n) => n,
                    None => final_component(&source_path),
                };
                if !is_valid_file_name(&name) {
                    return Err(Error::Io(concat("invalid file name: ", &name)));
                }
                let dir = match scope {
                    Scope::Private => join_path(r, "private"),
                    Scope::Public => owned(r),
                };
                proof {
                    reveal_strlit("private");
                }
                assert(dir@ == scope_dir(scope, r@));
                let dest = join_path(&dir, &name);
                let job = CopyJob::new(source_path, dest, Some(dir));
                Ok(job)
            },
        }
    }

    /// The job that copies the source file under `<app-data-root>/private/`.
    pub fn save_file_private_from_path(&self, payload: SaveFilePrivateFromPathRequest) -> (r: Result<
        CopyJob,
        Error,
    >)
        ensures
            job_answers(
                r,
                path_plan(Scope::Private, self.root(Scope::Private), payload.source_path@, opt_view(payload.file_name)),
                Scope::Private,
                target_name(payload.source_path@, opt_view(payload.file_name)),
            ),
    {
        self.plan_path(Scope::Private, payload.source_path, payload.file_name)
    }

    /// The job that copies the source file into the downloads directory.
    pub fn save_file_public_from_path(&self, payload: SaveFilePublicFromPathRequest) -> (r: Result<
        CopyJob,
        Error,
    >)
        ensures
            job_answers(
                r,
                path_plan(Scope::Public, self.root(Scope::Public), payload.source_path@, opt_view(payload.file_name)),
                Scope::Public,
                target_name(payload.source_path@, opt_view(payload.file_name)),
            ),
    {
        self.plan_path(Scope::Public, payload.source_path, payload.file_name)
    }
}

/// The answer to a path save once its copy job has finished: the stored
/// name is the last component of the destination.
pub fn path_save_response(job: CopyJob) -> (r: Option<Result<DownloadResponse, Error>>)
    ensures
        match job@.action {
            ActionModel::Finished(Ok(p)) => r is Some && r->0 is Ok && r->0->Ok_0@ == (ResponseModel {
                file_name: last_component(job@.dest),
                path: Some(p),
                uri: None,
            }),
            ActionModel::Finished(Err(e)) => r is Some && r->0 is Err && r->0->Err_0@ == e,
            _ => r is None,
        },
{
    match job.action {
        CopyAction::Finished(Ok(p)) => {
            let file_name = final_component(&job.dest);
            Some(Ok(DownloadResponse { file_name, path: Some(p), uri: None }))
        },
        CopyAction::Finished(Err(e)) => Some(Err(e)),
        _ => None,
    }
}

/// A path save whose source is missing ends with a `NotFound` error, and
/// neither creates a directory nor copies anything, whatever is reported
/// afterwards.
pub proof fn lemma_missing_source_saves_nothing(
    scope: Scope,
    root: Option<Seq<char>>,
    source: Seq<char>,
    name: Option<Seq<char>>,
    reason: Seq<char>,
    later: Seq<Outcome>,
)
    requires
        path_plan(scope, root, source, name) is Ok,
    ensures
        ({
            let m = path_plan(scope, root, source, name)->Ok_0;
            let outcomes = seq![Err::<(), Seq<char>>(reason)] + later;
            let end = run(m, outcomes);
            &&& end.action is Finished
            &&& end.action->Finished_0 is Err
            &&& end.action->Finished_0->Err_0.kind == ErrorKind::NotFound
            &&& forall|i: int|
                0 <= i < actions(m, outcomes).len() ==> !(#[trigger] actions(m, outcomes)[i] is CopyFile)
                    && !(actions(m, outcomes)[i] is CreateDir)
        }),
{
    lemma_missing_source_copies_nothing(path_plan(scope, root, source, name)->Ok_0, reason, later);
}

/// A valid buffer save succeeds, answers with the requested name and the
/// path written, and that path then holds exactly the saved data.
pub proof fn lemma_saved_buffer_reads_back(
    scope: Scope,
    root: Seq<char>,
    name: Seq<char>,
    data: Seq<u8>,
    fs: Map<Seq<char>, Seq<u8>>,
)
    requires
        valid_file_name(name),
    ensures
        buffer_plan(scope, Some(root), name, data) is Ok,
        ({
            let p = buffer_plan(scope, Some(root), name, data)->Ok_0;
            &&& completed(p).file_name == name
            &&& completed(p).path == Some(p.path)
            &&& apply_write(fs, p)[p.path] == data
        }),
{
}

/// Two saves of the same name in the same scope write the same path, and
/// afterwards that path holds the second content.
pub proof fn lemma_second_save_wins(
    scope: Scope,
    root: Seq<char>,
    name: Seq<char>,
    first: Seq<u8>,
    second: Seq<u8>,
    fs: Map<Seq<char>, Seq<u8>>,
)
    requires
        valid_file_name(name),
    ensures
        ({
            let p1 = buffer_plan(scope, Some(root), name, first)->Ok_0;
            let p2 = buffer_plan(scope, Some(root), name, second)->Ok_0;
            &&& p1.path == p2.path
            &&& apply_write(apply_write(fs, p1), p2)[p2.path] == second
        }),
{
}

} // verus!
