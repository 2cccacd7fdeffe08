use vstd::prelude::*;

verus! {

/// A directory path as the sequence of its components.
///
/// `absolute` records a leading root component; `parts` are the names that
/// follow it, outermost first. `/a/b` is `{ absolute: true, parts: [a, b] }`,
/// and the root directory `/` has no parts.
pub struct DirPath {
    pub absolute: bool,
    pub parts: Vec<String>,
}

/// What a [`DirPath`] denotes.
pub struct PathModel {
    pub absolute: bool,
    pub parts: Seq<Seq<char>>,
}

/// A path to test for existence: `name` placed inside directory `dir`.
///
/// With a relative `dir` of no parts the candidate is `name` as given,
/// resolved from the current working directory.
pub struct Candidate {
    pub dir: DirPath,
    pub name: String,
}

/// What a [`Candidate`] denotes.
pub struct CandidateModel {
    pub dir: PathModel,
    pub name: Seq<char>,
}

impl View for DirPath {
    type V = PathModel;

    open spec fn view(&self) -> PathModel {
        PathModel { absolute: self.absolute, parts: names_of(self.parts@) }
    }
}

impl View for Candidate {
    type V = CandidateModel;

    open spec fn view(&self) -> CandidateModel {
        CandidateModel { dir: self.dir@, name: self.name@ }
    }
}

/// The names held by a sequence of strings.
pub open spec fn names_of(parts: Seq<String>) -> Seq<Seq<char>> {
    parts.map_values(|s: String| s@)
}

/// `p` is `base` or lies below it: the components of `base` are a prefix of
/// those of `p`. A root component only matches a root component, and an empty
/// relative `base` is a prefix of every path.
pub open spec fn is_under(p: PathModel, base: PathModel) -> bool {
    &&& base.absolute ==> p.absolute
    &&& (!base.absolute && base.parts.len() > 0) ==> !p.absolute
    &&& base.parts.len() <= p.parts.len()
    &&& p.parts.subrange(0, base.parts.len() as int) == base.parts
}

/// The ancestor of `p` that lies `depth` levels above it (`p` itself at 0).
pub open spec fn ancestor(p: PathModel, depth: nat) -> PathModel
    recommends
        depth <= p.parts.len(),
{
    PathModel { absolute: p.absolute, parts: p.parts.subrange(0, p.parts.len() - depth) }
}

/// `name` placed beside directory `d`: in the parent of `d`, or in `d` itself
/// where `d` has no last name to replace (the root, or an empty relative path).
pub open spec fn sibling(d: PathModel, name: Seq<char>) -> CandidateModel {
    CandidateModel {
        dir: PathModel {
            absolute: d.absolute,
            parts: if d.parts.len() > 0 {
                d.parts.drop_last()
            } else {
                d.parts
            },
        },
        name,
    }
}

/// `name` as given, resolved from the current working directory.
pub open spec fn as_given(name: Seq<char>) -> CandidateModel {
    CandidateModel { dir: PathModel { absolute: false, parts: Seq::empty() }, name }
}

impl DirPath {
    /// The first `n` parts of this path, with its root component if it has one.
    pub fn prefix(&self, n: usize) -> (r: DirPath)
        requires
            n <= self.parts@.len(),
        ensures
            r@ == (PathModel { absolute: self@.absolute, parts: self@.parts.subrange(0, n as int) }),
    {
        let mut parts: Vec<String> = Vec::new();
        let mut i: usize = 0;
        while i < n
            invariant
                i <= n <= self.parts@.len(),
                parts@.len() == i,
                names_of(parts@) == self@.parts.subrange(0, i as int),
            decreases n - i,
        {
            parts.push(self.parts[i].clone());
            i = i + 1;
            assert(names_of(parts@) =~= self@.parts.subrange(0, i as int));
        }
        DirPath { absolute: self.absolute, parts }
    }

    /// The ancestor `depth` levels above this path (the path itself at 0).
    pub fn ancestor(&self, depth: usize) -> (r: DirPath)
        requires
            depth <= self.parts@.len(),
        ensures
            r@ == ancestor(self@, depth as nat),
    {
        self.prefix(self.parts.len() - depth)
    }

    /// Whether this path is `base` or lies below it.
    pub fn starts_with(&self, base: &DirPath) -> (r: bool)
        ensures
            r == is_under(self@, base@),
    {
        if base.absolute && !self.absolute {
            return false;
        }
        if !base.absolute && base.parts.len() > 0 && self.absolute {
            return false;
        }
        if base.parts.len() > self.parts.len() {
            return false;
        }
        let mut i: usize = 0;
        while i < base.parts.len()
            invariant
                i <= base.parts@.len() <= self.parts@.len(),
                self@.parts.subrange(0, i as int) == base@.parts.subrange(0, i as int),
            decreases base.parts@.len() - i,
        {
            if self.parts[i] != base.parts[i] {
                assert(self@.parts.subrange(0, base@.parts.len() as int)[i as int]
                    != base@.parts[i as int]);
                return false;
            }
            i = i + 1;
            assert(self@.parts.subrange(0, i as int) =~= base@.parts.subrange(0, i as int));
        }
        assert(base@.parts.subrange(0, i as int) =~= base@.parts);
        true
    }
}

impl Candidate {
    /// `name` placed beside directory `dir` (see [`sibling`]).
    pub fn beside(dir: &DirPath, name: &String) -> (r: Candidate)
        ensures
            r@ == sibling(dir@, name@),
    {
        let n = dir.parts.len();
        let kept = if n > 0 {
            n - 1
        } else {
            0
        };
        let d = dir.prefix(kept);
        assert(d@.parts =~= sibling(dir@, name@).dir.parts);
        Candidate { dir: d, name: name.clone() }
    }

    /// `name` as given, resolved from the current working directory.
    pub fn given(name: &String) -> (r: Candidate)
        ensures
            r@ == as_given(name@),
    {
        let d = DirPath { absolute: false, parts: Vec::new() };
        assert(d@.parts =~= Seq::<Seq<char>>::empty());
        Candidate { dir: d, name: name.clone() }
    }
}

} // verus!
