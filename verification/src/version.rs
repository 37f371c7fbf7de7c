//! Version resolution: the run's version tag is derived from two answers
//! of the version-control collaborator (the latest change date and a
//! descriptive revision identifier) and is fixed for the whole run.

use vstd::prelude::*;
use vstd::string::StringExecFns;

verus! {

/// The version tag for one run: the latest change date and the revision
/// identifier, joined by a dash.
pub open spec fn version_of(date: Seq<char>, revision: Seq<char>) -> Seq<char> {
    date + seq!['-'] + revision
}

/// Combines the two version-control answers into the run's version tag.
pub fn resolve_version(date: &str, revision: &str) -> (v: String)
    ensures
        v@ == version_of(date@, revision@),
{
    let mut out = date.to_owned();
    out.append("-");
    out.append(revision);
    proof {
        reveal_strlit("-");
        assert(out@ =~= version_of(date@, revision@));
    }
    out
}

/// The resolved version depends on the version-control answers alone, so
/// two resolutions over the same version-control state, as happens when a
/// run resolves once and keeps the tag fixed, give the same tag.
pub proof fn lemma_version_fixed_for_run(
    d1: Seq<char>,
    r1: Seq<char>,
    d2: Seq<char>,
    r2: Seq<char>,
)
    requires
        d1 == d2,
        r1 == r2,
    ensures
        version_of(d1, r1) == version_of(d2, r2),
{
}

} // verus!
