//! A deduplicated set of git working-tree roots, discovered under a
//! directory and updated as a batch: each repository's update is independent
//! and one failure never blocks the others.

use vstd::multiset::Multiset;
use vstd::prelude::*;

use crate::outcome::StepError;
use crate::paths::{join_path, spec_join};

verus! {

/// How many directory levels below the root discovery looks for working
/// trees.
pub const DISCOVERY_DEPTH: usize = 2;

/// Inserting into the set: a path already present leaves the set as it is;
/// a new path is appended.
pub open spec fn spec_insert(s: Seq<Seq<char>>, p: Seq<char>) -> Seq<Seq<char>> {
    if s.contains(p) {
        s
    } else {
        s.push(p)
    }
}

/// Inserting the same path twice is the same as inserting it once; from an
/// empty set, two insertions of one path yield a set of exactly one entry.
pub proof fn lemma_insert_idempotent(s: Seq<Seq<char>>, p: Seq<char>)
    ensures
        spec_insert(spec_insert(s, p), p) == spec_insert(s, p),
        spec_insert(spec_insert(Seq::<Seq<char>>::empty(), p), p).len() == 1,
{
    if s.contains(p) {
    } else {
        assert(s.push(p)[s.len() as int] == p);
        assert(spec_insert(s, p).contains(p));
    }
    let e = Seq::<Seq<char>>::empty();
    assert(!e.contains(p));
    assert(e.push(p)[0] == p);
    assert(e.push(p).contains(p));
}

/// A deduplicated collection of repository paths, keyed by the path string.
/// Insertion order is kept internally but carries no meaning.
pub struct RepositorySet {
    paths: Vec<String>,
}

impl View for RepositorySet {
    type V = Seq<Seq<char>>;

    closed spec fn view(&self) -> Seq<Seq<char>> {
        self.paths@.map_values(|p: String| p@)
    }
}

impl RepositorySet {
    /// No path is held twice.
    pub open spec fn wf(&self) -> bool {
        forall|i: int, j: int| 0 <= i < j < self@.len() ==> self@[i] != self@[j]
    }

    /// A fresh, empty set.
    pub fn new() -> (r: RepositorySet)
        ensures
            r@ == Seq::<Seq<char>>::empty(),
            r.wf(),
    {
        RepositorySet { paths: Vec::new() }
    }

    /// How many repositories the set holds.
    pub fn len(&self) -> (n: usize)
        ensures
            n == self@.len(),
    {
        self.paths.len()
    }

    /// Whether the set holds no repository at all.
    pub fn is_empty(&self) -> (b: bool)
        ensures
            b <==> self@.len() == 0,
    {
        self.paths.len() == 0
    }

    /// Whether `path` is in the set.
    pub fn contains(&self, path: &String) -> (b: bool)
        ensures
            b == self@.contains(path@),
    {
        let mut i: usize = 0;
        while i < self.paths.len()
            invariant
                i <= self.paths@.len(),
                self@ == self.paths@.map_values(|p: String| p@),
                forall|j: int| 0 <= j < i ==> self@[j] != path@,
            decreases self.paths@.len() - i,
        {
            if self.paths[i].eq(path) {
                proof {
                    assert(self@[i as int] == path@);
                }
                return true;
            }
            i += 1;
        }
        false
    }

    /// Insert `path`: a duplicate insertion is a no-op. Reports whether the
    /// path was new.
    pub fn insert(&mut self, path: String) -> (added: bool)
        requires
            old(self).wf(),
        ensures
            final(self).wf(),
            final(self)@ == spec_insert(old(self)@, path@),
            added == !old(self)@.contains(path@),
            final(self)@.contains(path@),
            final(self)@.len() == old(self)@.len() + if added {
                1int
            } else {
                0int
            },
    {
        if self.contains(&path) {
            false
        } else {
            let ghost pre = self@;
            self.paths.push(path);
            proof {
                assert(self@ =~= pre.push(path@));
                assert(self@[pre.len() as int] == path@);
                assert(self@.contains(path@));
                assert forall|i: int, j: int| 0 <= i < j < self@.len() implies self@[i]
                    != self@[j] by {
                    if j < pre.len() {
                    } else {
                        assert(self@[j] == path@);
                        assert(self@[i] == pre[i]);
                    }
                }
            }
            true
        }
    }

    /// Where `path` sits in the set, if anywhere.
    fn index_of(&self, path: &String) -> (r: Option<usize>)
        ensures
            match r {
                Some(i) => i < self@.len() && self@[i as int] == path@ && forall|j: int|
                    0 <= j < i ==> self@[j] != path@,
                None => !self@.contains(path@),
            },
    {
        let mut i: usize = 0;
        while i < self.paths.len()
            invariant
                i <= self.paths@.len(),
                forall|j: int| 0 <= j < i ==> self@[j] != path@,
            decreases self.paths@.len() - i,
        {
            if self.paths[i].eq(path) {
                proof {
                    assert(self@[i as int] == path@);
                }
                return Some(i);
            }
            i += 1;
        }
        None
    }

    /// Remove `path` from the set, if present. Afterwards the set holds
    /// exactly the other paths, so a removed repository is never among the
    /// pull targets.
    pub fn remove(&mut self, path: &String)
        requires
            old(self).wf(),
        ensures
            final(self).wf(),
            forall|q: Seq<char>|
                #[trigger] final(self)@.contains(q) <==> old(self)@.contains(q) && q != path@,
            !old(self)@.contains(path@) ==> final(self)@ == old(self)@,
            old(self)@.contains(path@) ==> final(self)@.len() == old(self)@.len() - 1,
    {
        let ghost pre = self@;
        match self.index_of(path) {
            None => {
                proof {
                    assert forall|q: Seq<char>| #[trigger] self@.contains(q) implies pre.contains(
                        q,
                    ) && q != path@ by {
                        assert(!pre.contains(path@));
                    }
                }
            },
            Some(i) => {
                proof {
                    assert(pre[i as int] == path@);
                    assert(pre.contains(path@));
                }
                self.paths.remove(i);
                proof {
                    let post = self@;
                    assert(post =~= pre.remove(i as int));
                    pre.remove_ensures(i as int);
                    assert forall|q: Seq<char>| #[trigger] post.contains(q) implies pre.contains(
                        q,
                    ) && q != path@ by {
                        let k = choose|k: int| 0 <= k < post.len() && post[k] == q;
                        if k < i {
                            assert(post[k] == pre[k]);
                            assert(pre[k] != pre[i as int]);
                        } else {
                            assert(post[k] == pre[k + 1]);
                            assert(pre[i as int] != pre[k + 1]);
                        }
                    }
                    assert forall|q: Seq<char>| pre.contains(q) && q != path@ implies
                        #[trigger] post.contains(q) by {
                        let k = choose|k: int| 0 <= k < pre.len() && pre[k] == q;
                        if k < i {
                            assert(post[k] == pre[k]);
                        } else {
                            assert(k != i);
                            assert(post[k - 1] == pre[k]);
                        }
                    }
                    assert forall|a: int, b: int| 0 <= a < b < post.len() implies post[a]
                        != post[b] by {
                        let pa: int = if a < i {
                            a
                        } else {
                            a + 1
                        };
                        let pb: int = if b < i {
                            b
                        } else {
                            b + 1
                        };
                        assert(post[a] == pre[pa]);
                        assert(post[b] == pre[pb]);
                        assert(pre[pa] != pre[pb]);
                    }
                }
            },
        }
    }

    /// The repositories to update, one entry each: exactly the paths the
    /// set holds.
    pub fn paths(&self) -> (v: &Vec<String>)
        ensures
            v@.map_values(|p: String| p@) == self@,
    {
        &self.paths
    }
}

/// A path removed from the set before the batch update is never among the
/// pull targets afterwards.
pub proof fn lemma_removed_path_never_pulled(
    before: Seq<Seq<char>>,
    after: Seq<Seq<char>>,
    p: Seq<char>,
)
    requires
        forall|q: Seq<char>| #[trigger] after.contains(q) <==> before.contains(q) && q != p,
    ensures
        !after.contains(p),
{
}

/// Whether, among the walked entries, `p` is the root of a git working
/// tree: the entry itself was seen, and so was its repository marker
/// directly below it.
pub open spec fn spec_is_repo_root(entries: Seq<Seq<char>>, p: Seq<char>) -> bool {
    entries.contains(p) && entries.contains(spec_join(p, ".git"@))
}

/// Whether `v` holds a string whose characters are `x`.
fn contains_string(v: &Vec<String>, x: &String) -> (b: bool)
    ensures
        b == v@.map_values(|e: String| e@).contains(x@),
{
    let ghost ev = v@.map_values(|e: String| e@);
    let mut i: usize = 0;
    while i < v.len()
        invariant
            i <= v@.len(),
            ev == v@.map_values(|e: String| e@),
            forall|j: int| 0 <= j < i ==> ev[j] != x@,
        decreases v@.len() - i,
    {
        if v[i].eq(x) {
            proof {
                assert(ev[i as int] == x@);
            }
            return true;
        }
        i += 1;
    }
    false
}

/// Build the repository set from a directory walk's entries: a path joins
/// the set exactly when it was walked and its repository marker was walked
/// directly below it. Duplicate entries collapse, so the set is
/// deduplicated whatever the walk produced.
pub fn repositories_from_entries(entries: &Vec<String>) -> (s: RepositorySet)
    ensures
        s.wf(),
        forall|p: Seq<char>|
            #[trigger] s@.contains(p) <==> spec_is_repo_root(
                entries@.map_values(|e: String| e@),
                p,
            ),
{
    let ghost ev = entries@.map_values(|e: String| e@);
    let mut s = RepositorySet::new();
    let mut i: usize = 0;
    while i < entries.len()
        invariant
            i <= entries@.len(),
            ev == entries@.map_values(|e: String| e@),
            s.wf(),
            forall|p: Seq<char>|
                #[trigger] s@.contains(p) <==> (exists|j: int| 0 <= j < i && ev[j] == p)
                    && ev.contains(spec_join(p, ".git"@)),
        decreases entries@.len() - i,
    {
        let marker = join_path(&entries[i], ".git");
        if contains_string(entries, &marker) {
            let ghost before = s@;
            s.insert(entries[i].clone());
            proof {
                assert(ev[i as int] == entries@[i as int]@);
                if !before.contains(ev[i as int]) {
                    assert(s@ == before.push(ev[i as int]));
                    assert(s@[before.len() as int] == ev[i as int]);
                }
                assert forall|p: Seq<char>| #[trigger] s@.contains(p) implies ((exists|j: int|
                    0 <= j < i + 1 && ev[j] == p) && ev.contains(spec_join(p, ".git"@))) by {
                    if before.contains(p) {
                    } else {
                        let k = choose|k: int| 0 <= k < s@.len() && s@[k] == p;
                        assert(s@ == before.push(ev[i as int]));
                        assert(p == ev[i as int]);
                    }
                }
                assert forall|p: Seq<char>|
                    ((exists|j: int| 0 <= j < i + 1 && ev[j] == p) && ev.contains(
                        spec_join(p, ".git"@),
                    )) implies #[trigger] s@.contains(p) by {
                    if (exists|j: int| 0 <= j < i && ev[j] == p) {
                        assert(before.contains(p));
                        let k = choose|k: int| 0 <= k < before.len() && before[k] == p;
                        if !before.contains(ev[i as int]) {
                            assert(s@ == before.push(ev[i as int]));
                            assert(s@[k] == p);
                        }
                        assert(s@.contains(p));
                    } else {
                        assert(p == ev[i as int]);
                        assert(s@.contains(ev[i as int]));
                    }
                }
            }
        } else {
            proof {
                assert(!ev.contains(spec_join(ev[i as int], ".git"@)));
                assert forall|p: Seq<char>| #[trigger] s@.contains(p) implies ((exists|j: int|
                    0 <= j < i + 1 && ev[j] == p) && ev.contains(spec_join(p, ".git"@))) by {}
                assert forall|p: Seq<char>|
                    ((exists|j: int| 0 <= j < i + 1 && ev[j] == p) && ev.contains(
                        spec_join(p, ".git"@),
                    )) implies #[trigger] s@.contains(p) by {
                    if (exists|j: int| 0 <= j < i && ev[j] == p) {
                    } else {
                        assert(p == ev[i as int]);
                        assert(false);
                    }
                }
            }
        }
        i += 1;
    }
    proof {
        assert forall|p: Seq<char>| #[trigger] s@.contains(p) <==> spec_is_repo_root(ev, p) by {
            assert((exists|j: int| 0 <= j < entries@.len() && ev[j] == p) == ev.contains(p));
        }
    }
    s
}

/// Relies on walkdir's `WalkDir`: `WalkDir::new(root).max_depth(depth)`
/// yields every filesystem entry under `root` at most `depth` levels below
/// it, the root itself included, or an error where traversal fails. What
/// comes back depends on the disk, so nothing is promised of it; callers
/// hand the listing to verified logic.
#[verifier::external_body]
fn walk_entries(root: &String, depth: usize) -> (r: Result<Vec<String>, String>) {
    let mut out: Vec<String> = Vec::new();
    for entry in walkdir::WalkDir::new(root.as_str()).max_depth(depth) {
        match entry {
            Ok(e) => out.push(e.path().to_string_lossy().into_owned()),
            Err(e) => return Err(format!("{e}")),
        }
    }
    Ok(out)
}

/// Discover the git working trees under `root`, at most `DISCOVERY_DEPTH`
/// levels deep: the walk goes one level further so that each candidate's
/// repository marker is seen. What the walk yields depends on the disk;
/// every yielded listing is turned into a well-formed, deduplicated set,
/// and a traversal failure surfaces as an I/O error for this unit of work.
pub fn discover_repositories(root: &String) -> (r: Result<RepositorySet, StepError>)
    ensures
        r matches Ok(s) ==> s.wf(),
        r matches Err(e) ==> e is Io,
{
    match walk_entries(root, DISCOVERY_DEPTH + 1) {
        Ok(entries) => Ok(repositories_from_entries(&entries)),
        Err(detail) => Err(StepError::Io { detail }),
    }
}

/// The aggregate of one batch update: how many repositories pulled
/// successfully and how many failed.
pub struct PullTally {
    pub pulled: usize,
    pub failed: usize,
}

/// How many of the per-repository results are successes.
pub open spec fn spec_true_count(flags: Seq<bool>) -> nat
    decreases flags.len(),
{
    if flags.len() == 0 {
        0
    } else {
        spec_true_count(flags.drop_last()) + if flags.last() {
            1nat
        } else {
            0nat
        }
    }
}

/// Tally a batch update from its per-repository results, `true` for a
/// repository that pulled cleanly. Every repository is counted on exactly
/// one side, so both outcomes of a mixed batch show up in the aggregate.
pub fn tally_pulls(results: &Vec<(String, bool)>) -> (t: PullTally)
    ensures
        t.pulled == spec_true_count(results@.map_values(|r: (String, bool)| r.1)),
        t.pulled + t.failed == results@.len(),
{
    let ghost flags = results@.map_values(|r: (String, bool)| r.1);
    let mut pulled: usize = 0;
    let mut failed: usize = 0;
    let mut i: usize = 0;
    while i < results.len()
        invariant
            i <= results@.len(),
            flags == results@.map_values(|r: (String, bool)| r.1),
            pulled == spec_true_count(flags.take(i as int)),
            pulled + failed == i,
        decreases results@.len() - i,
    {
        proof {
            assert(flags.take(i + 1).drop_last() =~= flags.take(i as int));
            assert(flags.take(i + 1).last() == flags[i as int]);
        }
        if results[i].1 {
            pulled += 1;
        } else {
            failed += 1;
        }
        i += 1;
    }
    proof {
        assert(flags.take(flags.len() as int) =~= flags);
    }
    PullTally { pulled, failed }
}

/// The success count of a batch is the number of successes in the results
/// as a multiset.
pub proof fn lemma_true_count_is_multiset_count(flags: Seq<bool>)
    ensures
        spec_true_count(flags) == flags.to_multiset().count(true),
    decreases flags.len(),
{
    broadcast use vstd::seq_lib::group_to_multiset_ensures;

    if flags.len() == 0 {
        assert(flags.to_multiset() =~= Multiset::empty());
    } else {
        lemma_true_count_is_multiset_count(flags.drop_last());
        assert(flags =~= flags.drop_last().push(flags.last()));
        assert(flags.to_multiset() =~= flags.drop_last().to_multiset().insert(flags.last()));
    }
}

/// The tally of a batch update does not depend on the order in which the
/// per-repository updates completed: two completion orders of the same
/// results tally alike.
pub proof fn lemma_tally_order_independent(a: Seq<bool>, b: Seq<bool>)
    requires
        a.to_multiset() == b.to_multiset(),
    ensures
        spec_true_count(a) == spec_true_count(b),
        a.len() == b.len(),
{
    broadcast use vstd::seq_lib::group_to_multiset_ensures;

    lemma_true_count_is_multiset_count(a);
    lemma_true_count_is_multiset_count(b);
    assert(a.len() == a.to_multiset().len());
    assert(b.len() == b.to_multiset().len());
}

} // verus!
