//! Path values as plain strings: joining a directory with an entry below
//! it, and resolving a configurable location from an explicit setting, a
//! probe's answer, and a default.

use vstd::prelude::*;

verus! {

/// `base` with `leaf` below it, separated by one slash.
pub open spec fn spec_join(base: Seq<char>, leaf: Seq<char>) -> Seq<char> {
    base + "/"@ + leaf
}

/// Join a directory with an entry below it.
pub fn join_path(base: &String, leaf: &str) -> (r: String)
    ensures
        r@ == spec_join(base@, leaf@),
{
    let mut r = base.clone();
    r.append("/");
    r.append(leaf);
    r
}

/// The first answer that is present: the explicit setting, else the
/// default.
pub open spec fn spec_resolve(explicit: Option<Seq<char>>, default: Seq<char>) -> Seq<char> {
    match explicit {
        Some(v) => v,
        None => default,
    }
}

/// Resolve a location from an explicit setting, falling back to a default.
pub fn resolve_path(explicit: Option<String>, default: String) -> (r: String)
    ensures
        r@ == spec_resolve(
            match explicit {
                Some(v) => Some(v@),
                None => None,
            },
            default@,
        ),
{
    match explicit {
        Some(v) => v,
        None => default,
    }
}

/// The first answer that is present: the explicit setting, else what the
/// probe printed, else the default.
pub open spec fn spec_resolve_with_probe(
    explicit: Option<Seq<char>>,
    probe: Option<Seq<char>>,
    default: Seq<char>,
) -> Seq<char> {
    match explicit {
        Some(v) => v,
        None => match probe {
            Some(p) => p,
            None => default,
        },
    }
}

/// Resolve a location from an explicit setting, falling back to what a
/// probe answered, falling back to a default. The probe is one more
/// explicit input here; running it is the caller's business.
pub fn resolve_path_with_probe(
    explicit: Option<String>,
    probe: Option<String>,
    default: String,
) -> (r: String)
    ensures
        r@ == spec_resolve_with_probe(
            match explicit {
                Some(v) => Some(v@),
                None => None,
            },
            match probe {
                Some(p) => Some(p@),
                None => None,
            },
            default@,
        ),
{
    match explicit {
        Some(v) => v,
        None => match probe {
            Some(p) => p,
            None => default,
        },
    }
}

} // verus!
