//! An in-memory view of a commit graph, the ancestry query over it, and the
//! state of a proposal derived from that query.
use vstd::prelude::*;
use crate::types::{ClassifyError, Patch, PatchState};

verus! {

/// Commits by position: the id of each, and the positions of its parents.
pub struct CommitGraph {
    pub ids: Vec<String>,
    pub parents: Vec<Vec<usize>>,
}

/// The mathematical value of a [`CommitGraph`].
pub struct CommitGraphModel {
    pub ids: Seq<Seq<char>>,
    pub parents: Seq<Seq<usize>>,
}

impl View for CommitGraph {
    type V = CommitGraphModel;

    open spec fn view(&self) -> CommitGraphModel {
        CommitGraphModel {
            ids: self.ids@.map_values(|s: String| s@),
            parents: self.parents@.map_values(|p: Vec<usize>| p@),
        }
    }
}

impl CommitGraphModel {
    /// Each commit has one id and every parent is a commit of the view.
    pub open spec fn wf(self) -> bool {
        &&& self.ids.len() == self.parents.len()
        &&& forall|c: int, q: int|
            0 <= c < self.parents.len() && 0 <= q < self.parents[c].len() ==> #[trigger] self.parents[c][q]
                < self.parents.len()
        &&& forall|i: int, j: int|
            0 <= i < self.ids.len() && 0 <= j < self.ids.len() && i != j ==> #[trigger] self.ids[i]
                != #[trigger] self.ids[j]
    }

    /// Commit `a` is a parent of commit `c`.
    pub open spec fn has_parent(self, c: int, a: int) -> bool {
        exists|q: int| 0 <= q < self.parents[c].len() && self.parents[c][q] as int == a
    }

    /// The commits marked in `m`, and their parents.
    pub open spec fn next_layer(self, m: Seq<bool>) -> Seq<bool> {
        Seq::new(
            self.parents.len(),
            |x: int|
                m[x] || exists|c: int|
                    0 <= c < self.parents.len() && m[c] && #[trigger] self.has_parent(c, x),
        )
    }

    /// Marks the commits reached from commit `b` in at most `k` steps from a
    /// commit to one of its parents.
    pub open spec fn layer(self, b: int, k: nat) -> Seq<bool>
        decreases k,
    {
        if k == 0 {
            Seq::new(self.parents.len(), |x: int| x == b)
        } else {
            self.next_layer(self.layer(b, (k - 1) as nat))
        }
    }

    /// Commit `a` is `b` or one of its ancestors: it is reached from `b` in
    /// at most as many parent steps as the view has commits.
    pub open spec fn reaches(self, a: int, b: int) -> bool {
        self.layer(b, self.parents.len())[a]
    }

    /// The commit with id `a` is the commit with id `b` or an ancestor of it.
    pub open spec fn is_ancestor_or_equal(self, a: Seq<char>, b: Seq<char>) -> bool {
        a == b || exists|i: int, j: int|
            0 <= i < self.ids.len() && 0 <= j < self.ids.len() && self.ids[i] == a && self.ids[j] == b
                && #[trigger] self.reaches(i, j)
    }

    /// Some commit is an ancestor of (or equal to) both `a` and `b`.
    pub open spec fn shares_history(self, a: Seq<char>, b: Seq<char>) -> bool {
        exists|c: Seq<char>| #[trigger]
            self.is_ancestor_or_equal(c, a) && self.is_ancestor_or_equal(c, b)
    }

    /// The state of a proposal that points at `target` while the default
    /// branch points at `tip`.
    pub open spec fn state_of(self, target: Seq<char>, tip: Seq<char>) -> PatchState {
        if self.is_ancestor_or_equal(target, tip) {
            PatchState::Merged
        } else {
            PatchState::Open
        }
    }
}

/// Whether commit `x` is a parent of some commit before position `c` whose
/// mark is set.
pub open spec fn parent_of_marked(g: CommitGraphModel, mark: Seq<bool>, x: int, c: int) -> bool {
    exists|d: int| 0 <= d < c && mark[d] && #[trigger] g.has_parent(d, x)
}

/// Whether `x` is among the first `q` entries of `ps`.
pub open spec fn listed(ps: Seq<usize>, q: int, x: int) -> bool {
    exists|w: int| 0 <= w < q && #[trigger] ps[w] as int == x
}

impl CommitGraph {
    /// Position of the commit with id `id`, if the view has it.
    pub fn index_of(&self, id: &String) -> (r: Option<usize>)
        requires
            self@.wf(),
        ensures
            r is Some ==> r->0 < self@.ids.len() && self@.ids[r->0 as int] == id@,
            r is None ==> forall|i: int| 0 <= i < self@.ids.len() ==> self@.ids[i] != id@,
    {
        let mut i: usize = 0;
        while i < self.ids.len()
            invariant
                i <= self.ids@.len(),
                forall|j: int| 0 <= j < i ==> self@.ids[j] != id@,
            decreases self.ids@.len() - i,
        {
            if self.ids[i] == *id {
                return Some(i);
            }
            i = i + 1;
        }
        None
    }

    /// Marks the commits that `b` reaches: entry `x` holds whether `x` is `b`
    /// or one of its ancestors.
    pub fn ancestors_of(&self, b: usize) -> (mark: Vec<bool>)
        requires
            self@.wf(),
            b < self@.parents.len(),
        ensures
            mark@.len() == self@.parents.len(),
            forall|x: int| 0 <= x < mark@.len() ==> mark@[x] == self@.reaches(x, b as int),
            mark@ == self@.layer(b as int, self@.parents.len()),
    {
        let ghost g = self@;
        let n = self.parents.len();
        let mut mark: Vec<bool> = Vec::new();
        let mut i: usize = 0;
        while i < n
            invariant
                n == g.parents.len(),
                i <= n,
                mark@.len() == i,
                forall|x: int| 0 <= x < i ==> mark@[x] == (x == b),
            decreases n - i,
        {
            mark.push(i == b);
            i = i + 1;
        }
        assert(mark@ =~= g.layer(b as int, 0));
        let mut k: usize = 0;
        while k < n
            invariant
                g == self@,
                g.wf(),
                n == g.parents.len(),
                k <= n,
                mark@.len() == n,
                mark@ == g.layer(b as int, k as nat),
            decreases n - k,
        {
            let mut next: Vec<bool> = Vec::new();
            let mut i: usize = 0;
            while i < n
                invariant
                    i <= n,
                    mark@.len() == n,
                    next@.len() == i,
                    forall|x: int| 0 <= x < i ==> next@[x] == mark@[x],
                decreases n - i,
            {
                next.push(mark[i]);
                i = i + 1;
            }
            let mut c: usize = 0;
            while c < n
                invariant
                    g == self@,
                    g.wf(),
                    n == g.parents.len(),
                    c <= n,
                    mark@.len() == n,
                    next@.len() == n,
                    forall|x: int|
                        0 <= x < n ==> next@[x] == (mark@[x] || parent_of_marked(g, mark@, x, c as int)),
                decreases n - c,
            {
                if mark[c] {
                    let ps = &self.parents[c];
                    assert(ps@ == g.parents[c as int]);
                    let mut q: usize = 0;
                    while q < ps.len()
                        invariant
                            g == self@,
                            g.wf(),
                            n == g.parents.len(),
                            c < n,
                            mark@[c as int],
                            ps@ == g.parents[c as int],
                            q <= ps@.len(),
                            mark@.len() == n,
                            next@.len() == n,
                            forall|x: int|
                                0 <= x < n ==> next@[x] == (mark@[x] || parent_of_marked(
                                    g,
                                    mark@,
                                    x,
                                    c as int,
                                ) || listed(ps@, q as int, x)),
                        decreases ps@.len() - q,
                    {
                        let p = ps[q];
                        assert(p < n);
                        next.set(p, true);
                        assert forall|x: int| 0 <= x < n implies next@[x] == (mark@[x]
                            || parent_of_marked(g, mark@, x, c as int) || listed(ps@, q + 1, x)) by {
                            if listed(ps@, q as int, x) {
                                let w = choose|w: int| 0 <= w < q && #[trigger] ps@[w] as int == x;
                                assert(listed(ps@, q + 1, x));
                            }
                            if listed(ps@, q + 1, x) && x != p {
                                let w = choose|w: int| 0 <= w < q + 1 && #[trigger] ps@[w] as int == x;
                                assert(listed(ps@, q as int, x));
                            }
                            if x == p {
                                assert(ps@[q as int] as int == x);
                            }
                        }
                        q = q + 1;
                    }
                    assert forall|x: int| 0 <= x < n implies listed(ps@, ps@.len() as int, x)
                        == g.has_parent(c as int, x) by {
                        if g.has_parent(c as int, x) {
                            let w = choose|w: int|
                                0 <= w < g.parents[c as int].len() && g.parents[c as int][w] as int == x;
                            assert(ps@[w] as int == x);
                        }
                    }
                }
                assert forall|x: int| 0 <= x < n implies next@[x] == (mark@[x] || parent_of_marked(
                    g,
                    mark@,
                    x,
                    c + 1,
                )) by {
                    if parent_of_marked(g, mark@, x, c + 1) && !parent_of_marked(g, mark@, x, c as int) {
                        let d = choose|d: int|
                            0 <= d < c + 1 && mark@[d] && #[trigger] g.has_parent(d, x);
                        assert(d == c);
                    }
                    if mark@[c as int] && g.has_parent(c as int, x) {
                        assert(parent_of_marked(g, mark@, x, c + 1));
                    }
                }
                c = c + 1;
            }
            assert(next@ =~= g.layer(b as int, (k + 1) as nat));
            mark = next;
            k = k + 1;
        }
        mark
    }

    /// Whether the commit with id `a` is the commit with id `b` or one of its
    /// ancestors.
    pub fn is_ancestor_or_equal(&self, a: &String, b: &String) -> (r: bool)
        requires
            self@.wf(),
        ensures
            r == self@.is_ancestor_or_equal(a@, b@),
    {
        if *a == *b {
            return true;
        }
        let ia = match self.index_of(a) {
            Some(i) => i,
            None => {
                return false;
            },
        };
        let ib = match self.index_of(b) {
            Some(i) => i,
            None => {
                return false;
            },
        };
        let mark = self.ancestors_of(ib);
        assert(self@.ids.len() == self.ids@.len());
        let r = mark[ia];
        proof {
            if self@.is_ancestor_or_equal(a@, b@) {
                let (i, j) = choose|i: int, j: int|
                    0 <= i < self@.ids.len() && 0 <= j < self@.ids.len() && self@.ids[i] == a@
                        && self@.ids[j] == b@ && #[trigger] self@.reaches(i, j);
                assert(i == ia as int);
                assert(j == ib as int);
            }
            if r {
                assert(self@.reaches(ia as int, ib as int));
            }
        }
        r
    }
}

/// The state of `patch` in the local view, given the tip of the default
/// branch there, if that branch has a local tip.
pub fn classify(view: &CommitGraph, patch: &Patch, default_branch_tip: &Option<String>) -> (r: Result<
    PatchState,
    ClassifyError,
>)
    requires
        view@.wf(),
    ensures
        default_branch_tip is None ==> r == Err::<PatchState, ClassifyError>(
            ClassifyError::UnresolvedReference,
        ),
        default_branch_tip is Some ==> r == Ok::<PatchState, ClassifyError>(
            view@.state_of(patch.target_commit@, default_branch_tip->0@),
        ),
{
    match default_branch_tip {
        None => Err(ClassifyError::UnresolvedReference),
        Some(tip) => {
            if view.is_ancestor_or_equal(&patch.target_commit, tip) {
                Ok(PatchState::Merged)
            } else {
                Ok(PatchState::Open)
            }
        },
    }
}

/// The state of a proposal pointing at `target`, where a default branch
/// without a local tip counts as `Open`.
pub open spec fn state_or_open(g: CommitGraphModel, target: Seq<char>, tip: Option<Seq<char>>) -> PatchState {
    match tip {
        Some(t) => g.state_of(target, t),
        None => PatchState::Open,
    }
}

/// Classifies `patch`, counting it `Open` where the default branch has no
/// local tip.
pub fn state_of(view: &CommitGraph, patch: &Patch, default_branch_tip: &Option<String>) -> (r: PatchState)
    requires
        view@.wf(),
    ensures
        r == state_or_open(view@, patch.target_commit@, tip_model(default_branch_tip)),
{
    match classify(view, patch, default_branch_tip) {
        Ok(state) => state,
        Err(_) => PatchState::Open,
    }
}

pub open spec fn tip_model(tip: &Option<String>) -> Option<Seq<char>> {
    match tip {
        Some(t) => Some(t@),
        None => None,
    }
}

/// The state is recomputed from the view alone: two views with the same
/// commits and parents classify a proposal alike.
pub proof fn lemma_classify_stable(
    g1: CommitGraphModel,
    g2: CommitGraphModel,
    target: Seq<char>,
    tip: Seq<char>,
)
    requires
        g1 == g2,
    ensures
        g1.state_of(target, tip) == g2.state_of(target, tip),
{
}

/// A proposal that points at the tip of the default branch is merged.
pub proof fn lemma_tip_is_merged(g: CommitGraphModel, target: Seq<char>, tip: Seq<char>)
    requires
        target == tip,
    ensures
        g.state_of(target, tip) == PatchState::Merged,
{
}

/// A proposal that shares no history with the default branch is open.
pub proof fn lemma_unrelated_is_open(g: CommitGraphModel, target: Seq<char>, tip: Seq<char>)
    requires
        !g.shares_history(target, tip),
    ensures
        g.state_of(target, tip) == PatchState::Open,
{
    if g.is_ancestor_or_equal(target, tip) {
        assert(g.is_ancestor_or_equal(target, target));
        assert(g.shares_history(target, tip));
    }
}

} // verus!
