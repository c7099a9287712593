//! Copying a file into place, as a state machine: each step names the file
//! operation to perform next, and the host reports how it went.
use vstd::prelude::*;

use crate::error::{Error, ErrorKind, ErrorModel};
use crate::models::opt_view;
use crate::text::{concat, owned};

verus! {

/// The next thing to do.
#[derive(Debug)]
pub enum CopyAction {
    /// Check that the source file exists and can be read.
    ProbeSource(String),
    /// Create this directory and its missing parents.
    CreateDir(String),
    /// Copy the bytes of the first file to the second.
    CopyFile(String, String),
    /// Nothing is left to do: this is the answer.
    Finished(Result<String, Error>),
}

pub enum ActionModel {
    ProbeSource(Seq<char>),
    CreateDir(Seq<char>),
    CopyFile(Seq<char>, Seq<char>),
    Finished(Result<Seq<char>, ErrorModel>),
}

pub open spec fn result_view(r: Result<String, Error>) -> Result<Seq<char>, ErrorModel> {
    match r {
        Ok(s) => Ok(s@),
        Err(e) => Err(e@),
    }
}

impl View for CopyAction {
    type V = ActionModel;

    open spec fn view(&self) -> ActionModel {
        match self {
            CopyAction::ProbeSource(p) => ActionModel::ProbeSource(p@),
            CopyAction::CreateDir(p) => ActionModel::CreateDir(p@),
            CopyAction::CopyFile(s, d) => ActionModel::CopyFile(s@, d@),
            CopyAction::Finished(r) => ActionModel::Finished(result_view(*r)),
        }
    }
}

/// A copy of `src` to `dest`; `parent` is the directory that must exist
/// before the copy, if the destination has one.
#[derive(Debug)]
pub struct CopyJob {
    pub src: String,
    pub dest: String,
    pub parent: Option<String>,
    pub action: CopyAction,
}

pub struct JobModel {
    pub src: Seq<char>,
    pub dest: Seq<char>,
    pub parent: Option<Seq<char>>,
    pub action: ActionModel,
}

impl View for CopyJob {
    type V = JobModel;

    open spec fn view(&self) -> JobModel {
        JobModel { src: self.src@, dest: self.dest@, parent: opt_view(self.parent), action: self.action@ }
    }
}

/// What the host reports of one operation: done, or failed with a reason.
pub type Outcome = Result<(), Seq<char>>;

pub open spec fn outcome_view(o: Result<(), String>) -> Outcome {
    match o {
        Ok(_) => Ok(()),
        Err(e) => Err(e@),
    }
}

pub open spec fn fail(kind: ErrorKind, prefix: Seq<char>, reason: Seq<char>) -> ActionModel {
    ActionModel::Finished(Err(ErrorModel { kind, message: prefix + reason }))
}

/// A job that has done nothing yet.
pub open spec fn start(src: Seq<char>, dest: Seq<char>, parent: Option<Seq<char>>) -> JobModel {
    JobModel { src, dest, parent, action: ActionModel::ProbeSource(src) }
}

/// The job after its current action ended with `outcome`.
pub open spec fn step(m: JobModel, outcome: Outcome) -> JobModel {
    let next = match m.action {
        ActionModel::ProbeSource(_) => match outcome {
            Err(e) => fail(ErrorKind::NotFound, "Source file not found or inaccessible: "@, e),
            Ok(_) => match m.parent {
                None => ActionModel::Finished(
                    Err(
                        ErrorModel {
                            kind: ErrorKind::Io,
                            message: "Destination path must include a parent directory"@,
                        },
                    ),
                ),
                Some(p) => ActionModel::CreateDir(p),
            },
        },
        ActionModel::CreateDir(_) => match outcome {
            Err(e) => fail(ErrorKind::Io, "Failed to create destination directory: "@, e),
            Ok(_) => ActionModel::CopyFile(m.src, m.dest),
        },
        ActionModel::CopyFile(_, _) => match outcome {
            Err(e) => fail(ErrorKind::Io, "Failed to copy file: "@, e),
            Ok(_) => ActionModel::Finished(Ok(m.dest)),
        },
        ActionModel::Finished(r) => ActionModel::Finished(r),
    };
    JobModel { action: next, ..m }
}

/// The job after the outcomes, in order.
pub open spec fn run(m: JobModel, outcomes: Seq<Outcome>) -> JobModel
    decreases outcomes.len(),
{
    if outcomes.len() == 0 {
        m
    } else {
        run(step(m, outcomes[0]), outcomes.drop_first())
    }
}

/// The actions the job names, from its current one on, as the outcomes come.
pub open spec fn actions(m: JobModel, outcomes: Seq<Outcome>) -> Seq<ActionModel>
    decreases outcomes.len(),
{
    if outcomes.len() == 0 {
        seq![m.action]
    } else {
        seq![m.action] + actions(step(m, outcomes[0]), outcomes.drop_first())
    }
}

impl CopyJob {
    /// A job that starts by checking the source.
    pub fn new(src: String, dest: String, parent: Option<String>) -> (r: CopyJob)
        ensures
            r@ == start(src@, dest@, opt_view(parent)),
    {
        let action = CopyAction::ProbeSource(src.clone());
        CopyJob { src, dest, parent, action }
    }

    pub fn is_finished(&self) -> (r: bool)
        ensures
            r == self@.action is Finished,
    {
        match self.action {
            CopyAction::Finished(_) => true,
            _ => false,
        }
    }

    /// Moves the job on after its current action ended with `outcome`.
    pub fn advance(&mut self, outcome: Result<(), String>)
        ensures
            final(self)@ == step(old(self)@, outcome_view(outcome)),
    {
        let next = match &self.action {
            CopyAction::ProbeSource(_) => match outcome {
                Err(e) => CopyAction::Finished(
                    Err(Error::NotFound(concat("Source file not found or inaccessible: ", &e))),
                ),
                Ok(_) => match &self.parent {
                    None => CopyAction::Finished(
                        Err(Error::Io(owned("Destination path must include a parent directory"))),
                    ),
                    Some(p) => CopyAction::CreateDir(p.clone()),
                },
            },
            CopyAction::CreateDir(_) => match outcome {
                Err(e) => CopyAction::Finished(
                    Err(Error::Io(concat("Failed to create destination directory: ", &e))),
                ),
                Ok(_) => CopyAction::CopyFile(self.src.clone(), self.dest.clone()),
            },
            CopyAction::CopyFile(_, _) => match outcome {
                Err(e) => CopyAction::Finished(Err(Error::Io(concat("Failed to copy file: ", &e)))),
                Ok(_) => CopyAction::Finished(Ok(self.dest.clone())),
            },
            CopyAction::Finished(_) => {
                return;
            },
        };
        self.action = next;
    }
}

/// Relies on `std::path::Path::parent`: the path without its final
/// component; an empty path has none.
#[verifier::external_body]
fn path_parent(p: &str) -> (r: Option<String>)
    ensures
        p@.len() == 0 ==> r is None,
{
    std::path::Path::new(p).parent().map(|d| d.to_string_lossy().into_owned())
}

/// The job that copies `src` to `dest`, creating the destination's parent
/// directory first.
pub fn copy_file_path(src: &str, dest: &str) -> (r: CopyJob)
    ensures
        r@.src == src@,
        r@.dest == dest@,
        r@.action == ActionModel::ProbeSource(src@),
        dest@.len() == 0 ==> r@.parent is None,
{
    let parent = path_parent(dest);
    CopyJob::new(owned(src), owned(dest), parent)
}

/// A finished job stays as it is, and names no other action.
pub proof fn lemma_finished_is_final(m: JobModel, outcomes: Seq<Outcome>)
    requires
        m.action is Finished,
    ensures
        run(m, outcomes) == m,
        forall|i: int| 0 <= i < actions(m, outcomes).len() ==> #[trigger] actions(m, outcomes)[i] == m.action,
    decreases outcomes.len(),
{
    if outcomes.len() > 0 {
        assert(step(m, outcomes[0]) == m);
        lemma_finished_is_final(m, outcomes.drop_first());
    }
}

/// When the source is missing, the copy ends with a `NotFound` error, and
/// whatever is reported afterwards no directory is created and nothing is
/// copied.
pub proof fn lemma_missing_source_copies_nothing(
    m: JobModel,
    reason: Seq<char>,
    later: Seq<Outcome>,
)
    requires
        m.action is ProbeSource,
    ensures
        ({
            let outcomes = seq![Err::<(), Seq<char>>(reason)] + later;
            let end = run(m, outcomes);
            &&& end.action is Finished
            &&& end.action->Finished_0 is Err
            &&& end.action->Finished_0->Err_0.kind == ErrorKind::NotFound
            &&& forall|i: int|
                0 <= i < actions(m, outcomes).len() ==> !(#[trigger] actions(m, outcomes)[i] is CopyFile)
                    && !(actions(m, outcomes)[i] is CreateDir)
        }),
{
    let outcomes = seq![Err::<(), Seq<char>>(reason)] + later;
    let m1 = step(m, Err(reason));
    assert(outcomes[0] == Err::<(), Seq<char>>(reason));
    assert(outcomes.drop_first() =~= later);
    lemma_finished_is_final(m1, later);
    let acts = actions(m, outcomes);
    assert(acts == seq![m.action] + actions(m1, later));
    assert forall|i: int| 0 <= i < acts.len() implies !(#[trigger] acts[i] is CopyFile) && !(
    acts[i] is CreateDir) by {
        if i > 0 {
            assert(acts[i] == actions(m1, later)[i - 1]);
        }
    }
}

/// With a destination whose parent is known, a copy in which every operation
/// succeeds creates that parent directory, then copies, then answers with
/// the destination path.
pub proof fn lemma_copy_creates_parent(src: Seq<char>, dest: Seq<char>, parent: Seq<char>)
    ensures
        ({
            let oks = seq![Ok::<(), Seq<char>>(()), Ok(()), Ok(())];
            &&& actions(start(src, dest, Some(parent)), oks) == seq![
                ActionModel::ProbeSource(src),
                ActionModel::CreateDir(parent),
                ActionModel::CopyFile(src, dest),
                ActionModel::Finished(Ok(dest)),
            ]
            &&& run(start(src, dest, Some(parent)), oks).action == ActionModel::Finished(Ok(dest))
        }),
{
    let oks = seq![Ok::<(), Seq<char>>(()), Ok(()), Ok(())];
    let m0 = start(src, dest, Some(parent));
    let m1 = step(m0, Ok(()));
    let m2 = step(m1, Ok(()));
    let m3 = step(m2, Ok(()));
    assert(oks.drop_first() =~= seq![Ok::<(), Seq<char>>(()), Ok(())]);
    assert(oks.drop_first().drop_first() =~= seq![Ok::<(), Seq<char>>(())]);
    assert(oks.drop_first().drop_first().drop_first() =~= Seq::<Outcome>::empty());
    assert(actions(m3, Seq::<Outcome>::empty()) == seq![m3.action]);
    assert(actions(m2, seq![Ok::<(), Seq<char>>(())]) =~= seq![m2.action, m3.action]);
    assert(actions(m1, seq![Ok::<(), Seq<char>>(()), Ok(())]) =~= seq![m1.action, m2.action, m3.action]);
    assert(actions(m0, oks) =~= seq![m0.action, m1.action, m2.action, m3.action]);
    assert(run(m0, oks) == run(m1, oks.drop_first()));
    assert(run(m1, oks.drop_first()) == run(m2, oks.drop_first().drop_first()));
    assert(run(m2, oks.drop_first().drop_first()) == run(m3, Seq::<Outcome>::empty()));
}

} // verus!
