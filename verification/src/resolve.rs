//! Client-side decisions of the command-line flow.
//!
//! The `latest` aliases resolve against the order the server reports:
//! the newest version or build is the last entry of the fetched list.
//! A group-scoped build lookup picks the first record carrying the asked
//! build number, or reports that none does.

use vstd::prelude::*;
use crate::paper::{BuildInfo, ProjectGroupBuildsResponse, ProjectResponse,
    ProjectVersionInfoResponse};

verus! {

/// Resolves `version=latest` for a project: the last entry of its version
/// list, absent only when the project has no version at all.
pub fn latest_version(p: &ProjectResponse) -> (r: Option<&String>)
    ensures
        r is Some <==> p.versions@.len() > 0,
        r matches Some(v) ==> v@ == p@.versions.last(),
{
    if p.versions.len() == 0 {
        None
    } else {
        Some(&p.versions[p.versions.len() - 1])
    }
}

/// Resolves `build=latest` for a version: the last entry of its build
/// list, absent only when the version has no build at all.
pub fn latest_build(v: &ProjectVersionInfoResponse) -> (r: Option<i32>)
    ensures
        r is Some <==> v.builds@.len() > 0,
        r matches Some(b) ==> b as int == v@.builds.last(),
{
    if v.builds.len() == 0 {
        None
    } else {
        Some(v.builds[v.builds.len() - 1])
    }
}

/// Finds the record of the asked build number in a group's build list:
/// the first record whose `build` field equals `build`, or nothing when
/// no record carries that number.
pub fn find_build(info: &ProjectGroupBuildsResponse, build: i32) -> (r: Option<&BuildInfo>)
    ensures
        match r {
            Some(b) => exists|k: int|
                0 <= k < info.builds@.len() && *b == info.builds@[k] && b.build == build
                    && (forall|m: int|
                    0 <= m < k ==> (#[trigger] info.builds@[m]).build != build),
            None => forall|m: int|
                0 <= m < info.builds@.len() ==> (#[trigger] info.builds@[m]).build != build,
        },
{
    let mut i: usize = 0;
    while i < info.builds.len()
        invariant
            i <= info.builds@.len(),
            forall|m: int| 0 <= m < i ==> (#[trigger] info.builds@[m]).build != build,
        decreases info.builds@.len() - i,
    {
        if info.builds[i].build == build {
            return Some(&info.builds[i]);
        }
        i = i + 1;
    }
    None
}

} // verus!
