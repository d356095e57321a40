//! The requirement resolver's cache: which external programs have been
//! looked up on the search path so far this run, and what the lookup found.
//! A name is probed at most once per run; later lookups reuse the first
//! answer, so resolution is deterministic for the whole run.

use vstd::prelude::*;

use crate::outcome::StepError;

verus! {

/// The view of one cache entry: a program name and the absolute path the
/// search found, or `None` when the program is not installed.
pub open spec fn opt_view(o: Option<String>) -> Option<Seq<char>> {
    match o {
        Some(p) => Some(p@),
        None => None,
    }
}

/// The first entry for `name`, if any: `None` when the name was never
/// recorded, `Some(found)` when it was, where `found` is what the search
/// found at the time.
pub open spec fn spec_lookup(
    entries: Seq<(Seq<char>, Option<Seq<char>>)>,
    name: Seq<char>,
) -> Option<Option<Seq<char>>>
    decreases entries.len(),
{
    if entries.len() == 0 {
        None
    } else if entries[0].0 == name {
        Some(entries[0].1)
    } else {
        spec_lookup(entries.subrange(1, entries.len() as int), name)
    }
}

/// A name has no entry exactly when no recorded key equals it.
pub proof fn lemma_lookup_none_iff(entries: Seq<(Seq<char>, Option<Seq<char>>)>, name: Seq<char>)
    ensures
        spec_lookup(entries, name) is None <==> forall|j: int|
            0 <= j < entries.len() ==> (#[trigger] entries[j]).0 != name,
    decreases entries.len(),
{
    if entries.len() > 0 {
        let rest = entries.subrange(1, entries.len() as int);
        lemma_lookup_none_iff(rest, name);
        assert(forall|j: int| 0 <= j < rest.len() ==> #[trigger] rest[j] == entries[j + 1]);
        if entries[0].0 != name && spec_lookup(rest, name) is None {
            assert(forall|j: int|
                1 <= j < entries.len() ==> (#[trigger] entries[j]).0 == rest[j - 1].0);
        }
    }
}

/// If the entries before position `i` miss `name` and entry `i` holds it,
/// the lookup answers with entry `i`.
pub proof fn lemma_lookup_first_match(
    entries: Seq<(Seq<char>, Option<Seq<char>>)>,
    name: Seq<char>,
    i: int,
)
    requires
        0 <= i < entries.len(),
        entries[i].0 == name,
        forall|j: int| 0 <= j < i ==> (#[trigger] entries[j]).0 != name,
    ensures
        spec_lookup(entries, name) == Some(entries[i].1),
    decreases i,
{
    let rest = entries.subrange(1, entries.len() as int);
    if i == 0 {
    } else {
        assert(forall|j: int| 0 <= j < rest.len() ==> #[trigger] rest[j] == entries[j + 1]);
        lemma_lookup_first_match(rest, name, i - 1);
    }
}

/// Recording a fresh name makes later lookups of it answer with what was
/// recorded, and leaves every other name's lookup unchanged.
pub proof fn lemma_lookup_after_record(
    entries: Seq<(Seq<char>, Option<Seq<char>>)>,
    name: Seq<char>,
    found: Option<Seq<char>>,
)
    requires
        spec_lookup(entries, name) is None,
    ensures
        spec_lookup(entries.push((name, found)), name) == Some(found),
        forall|other: Seq<char>|
            other != name ==> #[trigger] spec_lookup(entries.push((name, found)), other)
                == spec_lookup(entries, other),
{
    lemma_lookup_none_iff(entries, name);
    let pushed = entries.push((name, found));
    assert(pushed[entries.len() as int].0 == name);
    lemma_lookup_first_match(pushed, name, entries.len() as int);
    assert forall|other: Seq<char>| other != name implies #[trigger] spec_lookup(pushed, other)
        == spec_lookup(entries, other) by {
        lemma_lookup_push_other(entries, name, found, other);
    }
}

/// Pushing an entry for `name` does not change the lookup of another name.
proof fn lemma_lookup_push_other(
    entries: Seq<(Seq<char>, Option<Seq<char>>)>,
    name: Seq<char>,
    found: Option<Seq<char>>,
    other: Seq<char>,
)
    requires
        other != name,
    ensures
        spec_lookup(entries.push((name, found)), other) == spec_lookup(entries, other),
    decreases entries.len(),
{
    let pushed = entries.push((name, found));
    if entries.len() == 0 {
        let tail = pushed.subrange(1, pushed.len() as int);
        assert(tail.len() == 0);
        assert(spec_lookup(tail, other) is None);
        assert(pushed[0].0 == name);
        assert(spec_lookup(pushed, other) == spec_lookup(tail, other));
    } else if entries[0].0 == other {
        assert(pushed[0] == entries[0]);
    } else {
        let rest = entries.subrange(1, entries.len() as int);
        lemma_lookup_push_other(rest, name, found, other);
        assert(pushed[0] == entries[0]);
        assert(pushed.subrange(1, pushed.len() as int) =~= rest.push((name, found)));
    }
}

/// The in-memory cache of requirement lookups for one run.
pub struct RequirementCache {
    entries: Vec<(String, Option<String>)>,
}

impl View for RequirementCache {
    type V = Seq<(Seq<char>, Option<Seq<char>>)>;

    closed spec fn view(&self) -> Seq<(Seq<char>, Option<Seq<char>>)> {
        self.entries@.map_values(|e: (String, Option<String>)| (e.0@, opt_view(e.1)))
    }
}

/// Whether a result of requiring `name` reflects `resolved`, what the search
/// path holds for it: a found path is handed back as a success, an absent
/// program as the missing-requirement error that names it.
pub open spec fn spec_requirement_result(
    name: Seq<char>,
    resolved: Option<Seq<char>>,
    r: Result<String, StepError>,
) -> bool {
    match resolved {
        Some(p) => r matches Ok(path) && path@ == p,
        None => r matches Err(e) && e matches StepError::RequirementMissing { name: n } && n@
            == name,
    }
}

impl RequirementCache {
    /// No program name is recorded twice.
    pub open spec fn wf(&self) -> bool {
        forall|i: int, j: int|
            0 <= i < j < self@.len() ==> (#[trigger] self@[i]).0 != (#[trigger] self@[j]).0
    }

    /// A fresh, empty cache.
    pub fn new() -> (r: RequirementCache)
        ensures
            r@ == Seq::<(Seq<char>, Option<Seq<char>>)>::empty(),
            r.wf(),
    {
        RequirementCache { entries: Vec::new() }
    }

    /// What the cache holds for `name`: nothing yet, or the recorded answer.
    pub fn cached(&self, name: &String) -> (r: Option<Option<String>>)
        ensures
            match r {
                None => spec_lookup(self@, name@) is None,
                Some(v) => spec_lookup(self@, name@) == Some(opt_view(v)),
            },
    {
        let mut i: usize = 0;
        while i < self.entries.len()
            invariant
                i <= self.entries@.len(),
                self@ == self.entries@.map_values(
                    |e: (String, Option<String>)| (e.0@, opt_view(e.1)),
                ),
                forall|j: int| 0 <= j < i ==> (#[trigger] self@[j]).0 != name@,
            decreases self.entries@.len() - i,
        {
            if self.entries[i].0.eq(name) {
                proof {
                    lemma_lookup_first_match(self@, name@, i as int);
                }
                let found = match &self.entries[i].1 {
                    Some(p) => Some(p.clone()),
                    None => None,
                };
                return Some(found);
            }
            i += 1;
        }
        proof {
            lemma_lookup_none_iff(self@, name@);
        }
        None
    }

    /// Resolve `name` through the cache. A name already recorded answers
    /// from the cache and ignores `probe` — the cache is left untouched, so
    /// resolution is deterministic across a run. A fresh name records
    /// `probe`, the search path's answer, and answers from it. Either way
    /// the answer is a path on success and a missing-requirement error that
    /// names the program when it is not installed.
    pub fn require(&mut self, name: &String, probe: Option<String>) -> (r: Result<
        String,
        StepError,
    >)
        requires
            old(self).wf(),
            name@.len() > 0,
        ensures
            final(self).wf(),
            match spec_lookup(old(self)@, name@) {
                Some(v) => final(self)@ == old(self)@ && spec_requirement_result(name@, v, r),
                None => final(self)@ == old(self)@.push((name@, opt_view(probe)))
                    && spec_requirement_result(name@, opt_view(probe), r),
            },
            spec_lookup(final(self)@, name@) is Some,
    {
        let ghost pre = self@;
        let cached = self.cached(name);
        match cached {
            Some(found) => {
                match found {
                    Some(path) => Ok(path),
                    None => Err(StepError::RequirementMissing { name: name.clone() }),
                }
            },
            None => {
                proof {
                    lemma_lookup_none_iff(pre, name@);
                }
                let stored = match &probe {
                    Some(p) => Some(p.clone()),
                    None => None,
                };
                self.entries.push((name.clone(), stored));
                proof {
                    assert(self@ =~= pre.push((name@, opt_view(probe))));
                    lemma_lookup_after_record(pre, name@, opt_view(probe));
                    lemma_lookup_none_iff(pre, name@);
                }
                match probe {
                    Some(p) => Ok(p),
                    None => Err(StepError::RequirementMissing { name: name.clone() }),
                }
            },
        }
    }
}

} // verus!
