//! What the patch command reads of a project's identity document.
use vstd::prelude::*;

verus! {

/// One delegation of a project: a key that may act for it, or a person,
/// known by urn, with the keys that act for that person.
#[derive(Clone, Debug)]
pub enum Delegation {
    Key(String),
    Indirect { urn: String, keys: Vec<String> },
}

/// The parts of a project's identity document that [`Metadata`] is made of.
#[derive(Clone, Debug)]
pub struct ProjectIdentity {
    pub name: String,
    pub description: Option<String>,
    pub default_branch: Option<String>,
    pub delegations: Vec<Delegation>,
}

/// Project metadata.
#[derive(Debug)]
pub struct Metadata {
    /// Project name.
    pub name: String,
    /// Project description.
    pub description: String,
    /// Default branch of project.
    pub default_branch: String,
    /// The urns of the persons that the project delegates to, each once.
    pub delegates: Vec<String>,
    /// The keys that act for the project, directly or through a person,
    /// each once.
    pub remotes: Vec<String>,
}

/// Why an identity document gives no metadata.
#[derive(PartialEq, Eq, Structural, Clone, Copy, Debug)]
pub enum MetadataError {
    /// The project names no default branch.
    MissingDefaultBranch,
}

/// The values held in `v`.
pub open spec fn values(v: Seq<String>) -> Set<Seq<char>> {
    Set::new(|k: Seq<char>| exists|i: int| 0 <= i < v.len() && #[trigger] v[i]@ == k)
}

/// No value is held twice in `v`.
pub open spec fn no_repeats(v: Seq<String>) -> bool {
    forall|i: int, j: int| 0 <= i < v.len() && 0 <= j < v.len() && i != j ==> v[i]@ != v[j]@
}

/// Delegation `d` is the person with urn `u`.
pub open spec fn names_person(d: Delegation, u: Seq<char>) -> bool {
    match d {
        Delegation::Indirect { urn, keys } => urn@ == u,
        Delegation::Key(_) => false,
    }
}

/// The urns of the persons among the first `n` delegations.
pub open spec fn delegate_urns(ds: Seq<Delegation>, n: int) -> Set<Seq<char>> {
    Set::new(
        |u: Seq<char>|
            exists|i: int| 0 <= i < n && #[trigger] names_person(ds[i], u),
    )
}

/// Key `k` acts through delegation `d`.
pub open spec fn acts_through(d: Delegation, k: Seq<char>) -> bool {
    match d {
        Delegation::Key(key) => key@ == k,
        Delegation::Indirect { urn, keys } => values(keys@).contains(k),
    }
}

/// The keys that act through the first `n` delegations.
pub open spec fn delegate_keys(ds: Seq<Delegation>, n: int) -> Set<Seq<char>> {
    Set::new(|k: Seq<char>| exists|i: int| 0 <= i < n && #[trigger] acts_through(ds[i], k))
}

/// Adds `s` to `v` unless `v` already holds it.
fn add_once(v: &mut Vec<String>, s: &String)
    requires
        no_repeats(old(v)@),
    ensures
        no_repeats(final(v)@),
        values(final(v)@) == values(old(v)@).insert(s@),
{
    let mut i: usize = 0;
    while i < v.len()
        invariant
            i <= v@.len(),
            no_repeats(v@),
            forall|j: int| 0 <= j < i ==> v@[j]@ != s@,
        decreases v@.len() - i,
    {
        if v[i] == *s {
            assert(values(v@) =~= values(v@).insert(s@));
            return;
        }
        i = i + 1;
    }
    let ghost before = v@;
    v.push(s.clone());
    assert(v@[before.len() as int]@ == s@);
    assert forall|k: Seq<char>| values(v@).contains(k) == values(before).insert(s@).contains(k) by {
        if values(before).contains(k) {
            let i = choose|i: int| 0 <= i < before.len() && #[trigger] before[i]@ == k;
            assert(v@[i]@ == k);
        }
        if values(v@).contains(k) && k != s@ {
            let i = choose|i: int| 0 <= i < v@.len() && #[trigger] v@[i]@ == k;
            assert(before[i]@ == k);
        }
    }
    assert(values(v@) =~= values(before).insert(s@));
}

impl Metadata {
    /// The metadata of `project`; it fails where the project names no
    /// default branch.
    pub fn try_from(project: &ProjectIdentity) -> (r: Result<Metadata, MetadataError>)
        ensures
            r is Err <==> project.default_branch is None,
            r is Err ==> r == Err::<Metadata, MetadataError>(MetadataError::MissingDefaultBranch),
            r is Ok ==> {
                let m = r->Ok_0;
                let ds = project.delegations@;
                &&& m.name@ == project.name@
                &&& m.description@ == match project.description {
                    Some(d) => d@,
                    None => Seq::<char>::empty(),
                }
                &&& m.default_branch@ == project.default_branch->0@
                &&& values(m.delegates@) == delegate_urns(ds, ds.len() as int)
                &&& no_repeats(m.delegates@)
                &&& values(m.remotes@) == delegate_keys(ds, ds.len() as int)
                &&& no_repeats(m.remotes@)
            },
    {
        let default_branch = match &project.default_branch {
            Some(b) => b.clone(),
            None => {
                return Err(MetadataError::MissingDefaultBranch);
            },
        };
        let description = match &project.description {
            Some(d) => d.clone(),
            None => String::new(),
        };
        let ds = &project.delegations;
        let mut delegates: Vec<String> = Vec::new();
        let mut remotes: Vec<String> = Vec::new();
        assert(values(delegates@) =~= delegate_urns(ds@, 0));
        assert(values(remotes@) =~= delegate_keys(ds@, 0));
        let mut i: usize = 0;
        while i < ds.len()
            invariant
                i <= ds@.len(),
                no_repeats(delegates@),
                no_repeats(remotes@),
                values(delegates@) == delegate_urns(ds@, i as int),
                values(remotes@) == delegate_keys(ds@, i as int),
            decreases ds@.len() - i,
        {
            let ghost urns0 = values(delegates@);
            let ghost keys0 = values(remotes@);
            match &ds[i] {
                Delegation::Key(k) => {
                    add_once(&mut remotes, k);
                    assert(delegate_urns(ds@, i + 1) =~= urns0);
                    assert forall|x: Seq<char>|
                        delegate_keys(ds@, i + 1).contains(x) == keys0.insert(k@).contains(x) by {
                        if delegate_keys(ds@, i + 1).contains(x) && x != k@ {
                            let j = choose|j: int| 0 <= j < i + 1 && #[trigger] acts_through(ds@[j], x);
                            assert(j != i);
                        }
                        if x == k@ {
                            assert(acts_through(ds@[i as int], x));
                        }
                    }
                    assert(delegate_keys(ds@, i + 1) =~= keys0.insert(k@));
                },
                Delegation::Indirect { urn, keys } => {
                    add_once(&mut delegates, urn);
                    assert forall|x: Seq<char>|
                        delegate_urns(ds@, i + 1).contains(x) == urns0.insert(urn@).contains(x) by {
                        if delegate_urns(ds@, i + 1).contains(x) && x != urn@ {
                            let j = choose|j: int| 0 <= j < i + 1 && #[trigger] names_person(ds@[j], x);
                            assert(j != i);
                        }
                        if x == urn@ {
                            assert(names_person(ds@[i as int], x));
                        }
                    }
                    assert(delegate_urns(ds@, i + 1) =~= urns0.insert(urn@));
                    let mut q: usize = 0;
                    assert(values(keys@.subrange(0, 0)) =~= Set::empty());
                    assert(values(remotes@) =~= keys0 + values(keys@.subrange(0, 0)));
                    while q < keys.len()
                        invariant
                            q <= keys@.len(),
                            no_repeats(remotes@),
                            values(remotes@) == keys0 + values(keys@.subrange(0, q as int)),
                        decreases keys@.len() - q,
                    {
                        add_once(&mut remotes, &keys[q]);
                        assert forall|x: Seq<char>|
                            values(keys@.subrange(0, q + 1)).contains(x) == values(
                                keys@.subrange(0, q as int),
                            ).insert(keys@[q as int]@).contains(x) by {
                            if values(keys@.subrange(0, q + 1)).contains(x) {
                                let w = choose|w: int|
                                    0 <= w < q + 1 && #[trigger] keys@.subrange(0, q + 1)[w]@ == x;
                                if w < q {
                                    assert(keys@.subrange(0, q as int)[w]@ == x);
                                }
                            }
                            if values(keys@.subrange(0, q as int)).contains(x) {
                                let w = choose|w: int|
                                    0 <= w < q && #[trigger] keys@.subrange(0, q as int)[w]@ == x;
                                assert(keys@.subrange(0, q + 1)[w]@ == x);
                            }
                            if x == keys@[q as int]@ {
                                assert(keys@.subrange(0, q + 1)[q as int]@ == x);
                            }
                        }
                        assert(values(keys@.subrange(0, q + 1)) =~= values(
                            keys@.subrange(0, q as int),
                        ).insert(keys@[q as int]@));
                        assert(values(remotes@) =~= keys0 + values(keys@.subrange(0, q + 1)));
                        q = q + 1;
                    }
                    assert(keys@.subrange(0, keys@.len() as int) =~= keys@);
                    assert forall|x: Seq<char>|
                        delegate_keys(ds@, i + 1).contains(x) == (keys0 + values(keys@)).contains(x) by {
                        if delegate_keys(ds@, i + 1).contains(x) && !keys0.contains(x) {
                            let j = choose|j: int| 0 <= j < i + 1 && #[trigger] acts_through(ds@[j], x);
                            assert(j == i);
                        }
                        if values(keys@).contains(x) {
                            assert(acts_through(ds@[i as int], x));
                        }
                    }
                    assert(delegate_keys(ds@, i + 1) =~= keys0 + values(keys@));
                },
            }
            i = i + 1;
        }
        Ok(Metadata {
            name: project.name.clone(),
            description,
            default_branch,
            delegates,
            remotes,
        })
    }
}

} // verus!
