use crate::error::FileLookupError;
use crate::path::{
    ancestor, as_given, is_under, sibling, Candidate, CandidateModel, DirPath, PathModel,
};
use vstd::prelude::*;

verus! {

// ---------------------------------------------------------------------------
// The host and the search it allows
// ---------------------------------------------------------------------------

/// What the host answers, frozen at one moment: its home directory, its
/// current working directory (`None` where it cannot tell), and which
/// candidate paths exist.
pub struct Host {
    pub home: Option<PathModel>,
    pub cwd: Option<PathModel>,
    pub present: spec_fn(CandidateModel) -> bool,
}

/// The ancestor walk from `depth` on: each ancestor of `cwd` still under
/// `under` is tried, deepest first, by looking for `name` beside it; the walk
/// stops with nothing at the first ancestor above `under`, or past the root.
pub open spec fn walk(
    name: Seq<char>,
    under: PathModel,
    cwd: PathModel,
    present: spec_fn(CandidateModel) -> bool,
    depth: nat,
) -> Option<CandidateModel>
    decreases cwd.parts.len() + 1 - depth,
{
    if depth > cwd.parts.len() {
        None
    } else if !is_under(ancestor(cwd, depth), under) {
        None
    } else if present(sibling(ancestor(cwd, depth), name)) {
        Some(sibling(ancestor(cwd, depth), name))
    } else {
        walk(name, under, cwd, present, depth + 1)
    }
}

/// The result of looking for `name` with boundary `under` on `host`: `name`
/// as given if it exists; else an error if the current directory is unknown;
/// else the result of the ancestor walk.
pub open spec fn search(name: Seq<char>, under: PathModel, host: Host) -> Result<
    Option<CandidateModel>,
    FileLookupError,
> {
    if (host.present)(as_given(name)) {
        Ok(Some(as_given(name)))
    } else {
        match host.cwd {
            None => Err(FileLookupError::CwdNotFound),
            Some(cwd) => Ok(walk(name, under, cwd, host.present, 0)),
        }
    }
}

/// [`search`] with the host's home directory as the boundary.
pub open spec fn home_search(name: Seq<char>, host: Host) -> Result<
    Option<CandidateModel>,
    FileLookupError,
> {
    match host.home {
        None => Err(FileLookupError::HomeDirNotFound),
        Some(home) => search(name, home, host),
    }
}

// ---------------------------------------------------------------------------
// Questions, answers and the machine
// ---------------------------------------------------------------------------

/// A question for the host.
pub enum Query {
    /// Where is the user's home directory?
    HomeDir,
    /// Where is the current working directory?
    CurrentDir,
    /// Does this path exist?
    Exists(Candidate),
}

/// The host's answer to a [`Query`].
pub enum Reply {
    HomeDir(Option<DirPath>),
    CurrentDir(Option<DirPath>),
    Exists(bool),
}

/// Where a lookup stands.
pub enum Stage {
    /// Waiting for the home directory, which becomes the boundary.
    AwaitHome,
    /// Waiting to learn whether the name exists as given.
    AwaitGiven { under: DirPath },
    /// Waiting for the current working directory.
    AwaitCwd { under: DirPath },
    /// Waiting to learn whether the name exists beside the ancestor `depth`
    /// levels above `cwd`, which lies under `under`.
    AwaitSibling { under: DirPath, cwd: DirPath, depth: usize },
    /// Finished.
    Done { result: Result<Option<Candidate>, FileLookupError> },
}

/// One search for a file: a state machine that asks its host questions and
/// decides from each answer what to ask next, until it has a result.
pub struct Lookup {
    pub name: String,
    pub stage: Stage,
}

/// What a [`Query`] denotes.
pub enum QueryModel {
    HomeDir,
    CurrentDir,
    Exists(CandidateModel),
}

/// What a [`Reply`] denotes.
pub enum ReplyModel {
    HomeDir(Option<PathModel>),
    CurrentDir(Option<PathModel>),
    Exists(bool),
}

/// What a [`Stage`] denotes.
pub enum StageModel {
    AwaitHome,
    AwaitGiven { under: PathModel },
    AwaitCwd { under: PathModel },
    AwaitSibling { under: PathModel, cwd: PathModel, depth: nat },
    Done { result: Result<Option<CandidateModel>, FileLookupError> },
}

/// What a [`Lookup`] denotes.
pub struct LookupModel {
    pub name: Seq<char>,
    pub stage: StageModel,
}

pub open spec fn path_opt_view(p: Option<DirPath>) -> Option<PathModel> {
    match p {
        Some(d) => Some(d@),
        None => None,
    }
}

pub open spec fn result_view(r: Result<Option<Candidate>, FileLookupError>) -> Result<
    Option<CandidateModel>,
    FileLookupError,
> {
    match r {
        Ok(Some(c)) => Ok(Some(c@)),
        Ok(None) => Ok(None),
        Err(e) => Err(e),
    }
}

impl View for Query {
    type V = QueryModel;

    open spec fn view(&self) -> QueryModel {
        match self {
            Query::HomeDir => QueryModel::HomeDir,
            Query::CurrentDir => QueryModel::CurrentDir,
            Query::Exists(c) => QueryModel::Exists(c@),
        }
    }
}

impl View for Reply {
    type V = ReplyModel;

    open spec fn view(&self) -> ReplyModel {
        match self {
            Reply::HomeDir(p) => ReplyModel::HomeDir(path_opt_view(*p)),
            Reply::CurrentDir(p) => ReplyModel::CurrentDir(path_opt_view(*p)),
            Reply::Exists(b) => ReplyModel::Exists(*b),
        }
    }
}

impl View for Stage {
    type V = StageModel;

    open spec fn view(&self) -> StageModel {
        match self {
            Stage::AwaitHome => StageModel::AwaitHome,
            Stage::AwaitGiven { under } => StageModel::AwaitGiven { under: under@ },
            Stage::AwaitCwd { under } => StageModel::AwaitCwd { under: under@ },
            Stage::AwaitSibling { under, cwd, depth } => StageModel::AwaitSibling {
                under: under@,
                cwd: cwd@,
                depth: *depth as nat,
            },
            Stage::Done { result } => StageModel::Done { result: result_view(*result) },
        }
    }
}

impl View for Lookup {
    type V = LookupModel;

    open spec fn view(&self) -> LookupModel {
        LookupModel { name: self.name@, stage: self.stage@ }
    }
}

/// A stage is consistent: a pending sibling check is at an ancestor that
/// exists and lies under the boundary.
pub open spec fn stage_wf(s: StageModel) -> bool {
    match s {
        StageModel::AwaitSibling { under, cwd, depth } => depth <= cwd.parts.len() && is_under(
            ancestor(cwd, depth),
            under,
        ),
        _ => true,
    }
}

/// The question a lookup waits on; `None` once it is done.
pub open spec fn pending(m: LookupModel) -> Option<QueryModel> {
    match m.stage {
        StageModel::AwaitHome => Some(QueryModel::HomeDir),
        StageModel::AwaitGiven { .. } => Some(QueryModel::Exists(as_given(m.name))),
        StageModel::AwaitCwd { .. } => Some(QueryModel::CurrentDir),
        StageModel::AwaitSibling { cwd, depth, .. } => Some(
            QueryModel::Exists(sibling(ancestor(cwd, depth), m.name)),
        ),
        StageModel::Done { .. } => None,
    }
}

/// `reply` is what `host` answers to `query`.
pub open spec fn answers(host: Host, query: QueryModel, reply: ReplyModel) -> bool {
    match query {
        QueryModel::HomeDir => reply == ReplyModel::HomeDir(host.home),
        QueryModel::CurrentDir => reply == ReplyModel::CurrentDir(host.cwd),
        QueryModel::Exists(c) => reply == ReplyModel::Exists((host.present)(c)),
    }
}

/// The stage of a walk that is to go on at `depth`: the sibling check there,
/// or done with nothing where that ancestor is past the root or above `under`.
pub open spec fn enter(under: PathModel, cwd: PathModel, depth: nat) -> StageModel {
    if depth > cwd.parts.len() || !is_under(ancestor(cwd, depth), under) {
        StageModel::Done { result: Ok(None) }
    } else {
        StageModel::AwaitSibling { under, cwd, depth }
    }
}

/// The stage that follows `s` on `reply`. A reply to a question that was not
/// asked leaves the stage as it is.
pub open spec fn next_stage(name: Seq<char>, s: StageModel, reply: ReplyModel) -> StageModel {
    match s {
        StageModel::AwaitHome => match reply {
            ReplyModel::HomeDir(None) => StageModel::Done {
                result: Err(FileLookupError::HomeDirNotFound),
            },
            ReplyModel::HomeDir(Some(home)) => StageModel::AwaitGiven { under: home },
            _ => s,
        },
        StageModel::AwaitGiven { under } => match reply {
            ReplyModel::Exists(true) => StageModel::Done { result: Ok(Some(as_given(name))) },
            ReplyModel::Exists(false) => StageModel::AwaitCwd { under },
            _ => s,
        },
        StageModel::AwaitCwd { under } => match reply {
            ReplyModel::CurrentDir(None) => StageModel::Done {
                result: Err(FileLookupError::CwdNotFound),
            },
            ReplyModel::CurrentDir(Some(cwd)) => enter(under, cwd, 0),
            _ => s,
        },
        StageModel::AwaitSibling { under, cwd, depth } => match reply {
            ReplyModel::Exists(true) => StageModel::Done {
                result: Ok(Some(sibling(ancestor(cwd, depth), name))),
            },
            ReplyModel::Exists(false) => enter(under, cwd, depth + 1),
            _ => s,
        },
        StageModel::Done { .. } => s,
    }
}

/// The lookup after `reply`.
pub open spec fn next(m: LookupModel, reply: ReplyModel) -> LookupModel {
    LookupModel { name: m.name, stage: next_stage(m.name, m.stage, reply) }
}

/// The result that lookup `m` comes to when every question is answered by
/// `host`.
pub open spec fn outcome(m: LookupModel, host: Host) -> Result<
    Option<CandidateModel>,
    FileLookupError,
> {
    match m.stage {
        StageModel::AwaitHome => home_search(m.name, host),
        StageModel::AwaitGiven { under } => search(m.name, under, host),
        StageModel::AwaitCwd { under } => match host.cwd {
            None => Err(FileLookupError::CwdNotFound),
            Some(cwd) => Ok(walk(m.name, under, cwd, host.present, 0)),
        },
        StageModel::AwaitSibling { under, cwd, depth } => Ok(
            walk(m.name, under, cwd, host.present, depth),
        ),
        StageModel::Done { result } => result,
    }
}

/// How many sibling checks the walk from `depth` makes on a host where
/// `present` tells which paths exist.
pub open spec fn walk_questions(
    name: Seq<char>,
    under: PathModel,
    cwd: PathModel,
    present: spec_fn(CandidateModel) -> bool,
    depth: nat,
) -> nat
    decreases cwd.parts.len() + 1 - depth,
{
    if depth > cwd.parts.len() || !is_under(ancestor(cwd, depth), under) {
        0
    } else if present(sibling(ancestor(cwd, depth), name)) {
        1
    } else {
        1 + walk_questions(name, under, cwd, present, depth + 1)
    }
}

/// How many questions are left after the current directory has been asked for.
pub open spec fn questions_after_cwd(name: Seq<char>, under: PathModel, host: Host) -> nat {
    match host.cwd {
        None => 0,
        Some(cwd) => walk_questions(name, under, cwd, host.present, 0),
    }
}

/// How many questions a lookup for `name` with boundary `under` asks `host`.
pub open spec fn search_questions(name: Seq<char>, under: PathModel, host: Host) -> nat {
    if (host.present)(as_given(name)) {
        1
    } else {
        2 + questions_after_cwd(name, under, host)
    }
}

/// How many more questions lookup `m` asks before it is done, when every
/// question is answered by `host`.
pub open spec fn questions_left(m: LookupModel, host: Host) -> nat {
    match m.stage {
        StageModel::AwaitHome => 1 + match host.home {
            None => 0,
            Some(home) => search_questions(m.name, home, host),
        },
        StageModel::AwaitGiven { under } => search_questions(m.name, under, host),
        StageModel::AwaitCwd { under } => 1 + questions_after_cwd(m.name, under, host),
        StageModel::AwaitSibling { under, cwd, depth } => walk_questions(
            m.name,
            under,
            cwd,
            host.present,
            depth,
        ),
        StageModel::Done { .. } => 0,
    }
}

// ---------------------------------------------------------------------------
// The executable machine
// ---------------------------------------------------------------------------

/// The executable form of [`enter`].
fn enter_walk(under: DirPath, cwd: DirPath, depth: usize) -> (r: Stage)
    requires
        depth <= cwd.parts@.len(),
    ensures
        r@ == enter(under@, cwd@, depth as nat),
        stage_wf(r@),
{
    let dir = cwd.ancestor(depth);
    if !dir.starts_with(&under) {
        Stage::Done { result: Ok(None) }
    } else {
        Stage::AwaitSibling { under, cwd, depth }
    }
}

impl Lookup {
    /// A lookup for `name` that may climb up to `under`, and no higher.
    pub fn new(name: &str, under: DirPath) -> (r: Lookup)
        ensures
            r@ == (LookupModel { name: name@, stage: StageModel::AwaitGiven { under: under@ } }),
            stage_wf(r@.stage),
    {
        Lookup { name: name.to_owned(), stage: Stage::AwaitGiven { under } }
    }

    /// A lookup for `name` that may climb up to the user's home directory,
    /// and no higher.
    pub fn under_home(name: &str) -> (r: Lookup)
        ensures
            r@ == (LookupModel { name: name@, stage: StageModel::AwaitHome }),
            stage_wf(r@.stage),
    {
        Lookup { name: name.to_owned(), stage: Stage::AwaitHome }
    }

    /// The question this lookup waits on; `None` once it has its result.
    pub fn query(&self) -> (r: Option<Query>)
        requires
            stage_wf(self@.stage),
        ensures
            r matches Some(q) ==> pending(self@) == Some(q@),
            r is None ==> pending(self@) is None,
    {
        match &self.stage {
            Stage::AwaitHome => Some(Query::HomeDir),
            Stage::AwaitGiven { .. } => Some(Query::Exists(Candidate::given(&self.name))),
            Stage::AwaitCwd { .. } => Some(Query::CurrentDir),
            Stage::AwaitSibling { cwd, depth, .. } => {
                let dir = cwd.ancestor(*depth);
                Some(Query::Exists(Candidate::beside(&dir, &self.name)))
            },
            Stage::Done { .. } => None,
        }
    }

    /// Takes the host's answer to the pending question and moves on.
    pub fn advance(self, reply: Reply) -> (r: Lookup)
        requires
            stage_wf(self@.stage),
        ensures
            r@ == next(self@, reply@),
            stage_wf(r@.stage),
    {
        let name = self.name;
        let stage = match self.stage {
            Stage::AwaitHome => match reply {
                Reply::HomeDir(None) => Stage::Done { result: Err(FileLookupError::HomeDirNotFound) },
                Reply::HomeDir(Some(home)) => Stage::AwaitGiven { under: home },
                _ => Stage::AwaitHome,
            },
            Stage::AwaitGiven { under } => match reply {
                Reply::Exists(true) => Stage::Done {
                    result: Ok(Some(Candidate::given(&name))),
                },
                Reply::Exists(false) => Stage::AwaitCwd { under },
                _ => Stage::AwaitGiven { under },
            },
            Stage::AwaitCwd { under } => match reply {
                Reply::CurrentDir(None) => Stage::Done { result: Err(FileLookupError::CwdNotFound) },
                Reply::CurrentDir(Some(cwd)) => enter_walk(under, cwd, 0),
                _ => Stage::AwaitCwd { under },
            },
            Stage::AwaitSibling { under, cwd, depth } => match reply {
                Reply::Exists(true) => {
                    let dir = cwd.ancestor(depth);
                    Stage::Done { result: Ok(Some(Candidate::beside(&dir, &name))) }
                },
                Reply::Exists(false) => {
                    if depth >= cwd.parts.len() {
                        Stage::Done { result: Ok(None) }
                    } else {
                        enter_walk(under, cwd, depth + 1)
                    }
                },
                _ => Stage::AwaitSibling { under, cwd, depth },
            },
            Stage::Done { result } => Stage::Done { result },
        };
        Lookup { name, stage }
    }

    /// The result, once the lookup is done; `None` while a question is pending.
    pub fn into_result(self) -> (r: Option<Result<Option<Candidate>, FileLookupError>>)
        ensures
            r matches Some(res) ==> self@.stage == (StageModel::Done { result: result_view(res) }),
            r is None ==> !(self@.stage is Done),
    {
        match self.stage {
            Stage::Done { result } => Some(result),
            _ => None,
        }
    }
}

} // verus!
