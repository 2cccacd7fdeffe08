//! What holds of every lookup, proved over the search it follows.
use crate::lookup::{
    answers, home_search, questions_left, walk_questions, next, outcome, pending, search, stage_wf, walk, Host, LookupModel,
    ReplyModel, StageModel,
};
use crate::error::FileLookupError;
use crate::path::{ancestor, as_given, is_under, sibling, CandidateModel, PathModel};
use vstd::prelude::*;

verus! {

/// If an ancestor of `cwd` lies under `base`, so does every deeper ancestor.
proof fn lemma_deeper_ancestor_under(cwd: PathModel, base: PathModel, shallow: nat, deep: nat)
    requires
        deep <= shallow <= cwd.parts.len(),
        is_under(ancestor(cwd, shallow), base),
    ensures
        is_under(ancestor(cwd, deep), base),
{
    let n = base.parts.len() as int;
    let a = ancestor(cwd, shallow).parts;
    let b = ancestor(cwd, deep).parts;
    assert(b.subrange(0, n) =~= a.subrange(0, n));
}

/// Ancestors where the name is absent and that lie under the boundary are
/// passed over: the walk from `from` comes to what the walk from `to` does.
proof fn lemma_walk_passes_over(
    name: Seq<char>,
    under: PathModel,
    cwd: PathModel,
    present: spec_fn(CandidateModel) -> bool,
    from: nat,
    to: nat,
)
    requires
        from <= to <= cwd.parts.len(),
        is_under(ancestor(cwd, to), under),
        forall|i: nat| from <= i < to ==> !present(sibling(ancestor(cwd, i), name)),
    ensures
        walk(name, under, cwd, present, from) == walk(name, under, cwd, present, to),
    decreases to - from,
{
    if from < to {
        lemma_deeper_ancestor_under(cwd, under, to, from);
        lemma_walk_passes_over(name, under, cwd, present, from + 1, to);
    }
}

/// A walk that meets no match before an ancestor above the boundary, or
/// before passing the root, finds nothing.
proof fn lemma_walk_stops_empty(
    name: Seq<char>,
    under: PathModel,
    cwd: PathModel,
    present: spec_fn(CandidateModel) -> bool,
    from: nat,
    stop: nat,
)
    requires
        from <= stop <= cwd.parts.len() + 1,
        stop > cwd.parts.len() || !is_under(ancestor(cwd, stop), under),
        forall|i: nat| from <= i < stop ==> !present(sibling(ancestor(cwd, i), name)),
    ensures
        walk(name, under, cwd, present, from) == None::<CandidateModel>,
    decreases stop - from,
{
    if from < stop {
        lemma_walk_stops_empty(name, under, cwd, present, from + 1, stop);
    }
}

/// A walk from `from` that meets no match under the boundary finds nothing.
proof fn lemma_walk_absent(
    name: Seq<char>,
    under: PathModel,
    cwd: PathModel,
    present: spec_fn(CandidateModel) -> bool,
    from: nat,
)
    requires
        forall|i: nat|
            i <= cwd.parts.len() && is_under(ancestor(cwd, i), under) ==> !present(
                sibling(ancestor(cwd, i), name),
            ),
    ensures
        walk(name, under, cwd, present, from) == None::<CandidateModel>,
    decreases cwd.parts.len() + 1 - from,
{
    if from <= cwd.parts.len() {
        lemma_walk_absent(name, under, cwd, present, from + 1);
    }
}

/// Each answer the host gives to the pending question leaves the result the
/// lookup comes to unchanged: a lookup driven by a host to its end returns
/// what [`search`] (or [`home_search`]) says of that host.
pub proof fn law_step_keeps_outcome(m: LookupModel, reply: ReplyModel, host: Host)
    requires
        stage_wf(m.stage),
        pending(m) matches Some(q) && answers(host, q, reply),
    ensures
        outcome(next(m, reply), host) == outcome(m, host),
{
    match m.stage {
        StageModel::AwaitCwd { under } => {
            if let Some(cwd) = host.cwd {
                assert(outcome(next(m, reply), host) == Ok::<Option<CandidateModel>, FileLookupError>(
                    walk(m.name, under, cwd, host.present, 0),
                ));
            }
        },
        StageModel::AwaitSibling { under, cwd, depth } => {
            if !(host.present)(sibling(ancestor(cwd, depth), m.name)) {
                assert(walk(m.name, under, cwd, host.present, depth) == walk(
                    m.name,
                    under,
                    cwd,
                    host.present,
                    depth + 1,
                ));
            }
        },
        _ => {},
    }
}

/// Each answer to the pending question leaves one question fewer: a lookup
/// whose questions are answered by a host ends after finitely many of them.
pub proof fn law_step_makes_progress(m: LookupModel, reply: ReplyModel, host: Host)
    requires
        stage_wf(m.stage),
        pending(m) matches Some(q) && answers(host, q, reply),
    ensures
        questions_left(next(m, reply), host) + 1 == questions_left(m, host),
{
    match m.stage {
        StageModel::AwaitCwd { under } => {
            if let Some(cwd) = host.cwd {
                assert(questions_left(next(m, reply), host) == walk_questions(
                    m.name,
                    under,
                    cwd,
                    host.present,
                    0,
                ));
            }
        },
        StageModel::AwaitSibling { under, cwd, depth } => {
            if !(host.present)(sibling(ancestor(cwd, depth), m.name)) {
                assert(walk_questions(m.name, under, cwd, host.present, depth) == 1
                    + walk_questions(m.name, under, cwd, host.present, depth + 1));
                assert(questions_left(next(m, reply), host) == walk_questions(
                    m.name,
                    under,
                    cwd,
                    host.present,
                    depth + 1,
                ));
            }
        },
        _ => {},
    }
}

/// A name that exists as given, from the current directory, is found as
/// given, whatever the boundary.
pub proof fn law_found_as_given(name: Seq<char>, under: PathModel, host: Host)
    requires
        (host.present)(as_given(name)),
    ensures
        search(name, under, host) == Ok::<Option<CandidateModel>, FileLookupError>(Some(as_given(name))),
{
}

/// A name that exists neither as given nor beside any ancestor of the
/// current directory that lies under the boundary is not found.
pub proof fn law_absent_not_found(name: Seq<char>, under: PathModel, host: Host, cwd: PathModel)
    requires
        !(host.present)(as_given(name)),
        host.cwd == Some(cwd),
        forall|i: nat|
            i <= cwd.parts.len() && is_under(ancestor(cwd, i), under) ==> !(host.present)(
                sibling(ancestor(cwd, i), name),
            ),
    ensures
        search(name, under, host) == Ok::<Option<CandidateModel>, FileLookupError>(None),
{
    lemma_walk_absent(name, under, cwd, host.present, 0);
}

/// A name first found beside the ancestor `depth` levels up is found there
/// with every boundary that still holds that ancestor, and not at all with a
/// boundary that does not.
pub proof fn law_match_follows_boundary(
    name: Seq<char>,
    under: PathModel,
    other: PathModel,
    host: Host,
    cwd: PathModel,
    depth: nat,
)
    requires
        !(host.present)(as_given(name)),
        host.cwd == Some(cwd),
        depth <= cwd.parts.len(),
        is_under(ancestor(cwd, depth), under),
        forall|i: nat| i < depth ==> !(host.present)(sibling(ancestor(cwd, i), name)),
        (host.present)(sibling(ancestor(cwd, depth), name)),
    ensures
        search(name, under, host) == Ok::<Option<CandidateModel>, FileLookupError>(
            Some(sibling(ancestor(cwd, depth), name)),
        ),
        is_under(ancestor(cwd, depth), other) ==> search(name, other, host) == search(
            name,
            under,
            host,
        ),
        !is_under(ancestor(cwd, depth), other) ==> search(name, other, host) == Ok::<
            Option<CandidateModel>,
            FileLookupError,
        >(None),
{
    lemma_walk_passes_over(name, under, cwd, host.present, 0, depth);
    if is_under(ancestor(cwd, depth), other) {
        lemma_walk_passes_over(name, other, cwd, host.present, 0, depth);
    } else {
        lemma_walk_stops_empty(name, other, cwd, host.present, 0, depth);
    }
}

/// With the ancestor `depth` levels up as the boundary, a match beside that
/// ancestor is still found, and nothing beyond it is ever looked at: where
/// the name is absent up to that ancestor, it is not found.
pub proof fn law_boundary_is_last_ancestor(name: Seq<char>, host: Host, cwd: PathModel, depth: nat)
    requires
        !(host.present)(as_given(name)),
        host.cwd == Some(cwd),
        depth <= cwd.parts.len(),
    ensures
        (forall|i: nat| i < depth ==> !(host.present)(sibling(ancestor(cwd, i), name))) && (
        host.present)(sibling(ancestor(cwd, depth), name)) ==> search(
            name,
            ancestor(cwd, depth),
            host,
        ) == Ok::<Option<CandidateModel>, FileLookupError>(
            Some(sibling(ancestor(cwd, depth), name)),
        ),
        (forall|i: nat| i <= depth ==> !(host.present)(sibling(ancestor(cwd, i), name)))
            ==> search(name, ancestor(cwd, depth), host) == Ok::<
            Option<CandidateModel>,
            FileLookupError,
        >(None),
{
    let bound = ancestor(cwd, depth);
    assert(ancestor(cwd, depth).parts.subrange(0, bound.parts.len() as int) =~= bound.parts);
    if (forall|i: nat| i < depth ==> !(host.present)(sibling(ancestor(cwd, i), name))) && (
    host.present)(sibling(ancestor(cwd, depth), name)) {
        lemma_walk_passes_over(name, bound, cwd, host.present, 0, depth);
    }
    if forall|i: nat| i <= depth ==> !(host.present)(sibling(ancestor(cwd, i), name)) {
        lemma_walk_stops_empty(name, bound, cwd, host.present, 0, depth + 1);
    }
}

/// Looking under the home directory is looking with the home directory as
/// the boundary: the home lookup, once told the home directory, is the plain
/// lookup with that boundary.
pub proof fn law_home_is_boundary(name: Seq<char>, host: Host, home: PathModel)
    requires
        host.home == Some(home),
    ensures
        home_search(name, host) == search(name, home, host),
        next(LookupModel { name, stage: StageModel::AwaitHome }, ReplyModel::HomeDir(Some(home)))
            == (LookupModel { name, stage: StageModel::AwaitGiven { under: home } }),
        outcome(LookupModel { name, stage: StageModel::AwaitHome }, host) == outcome(
            LookupModel { name, stage: StageModel::AwaitGiven { under: home } },
            host,
        ),
{
}

} // verus!
