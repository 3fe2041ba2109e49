//! Repository and sheet name lists: each name exported as a null-terminated
//! string, an absent version as a null one.

use vstd::prelude::*;
use crate::buffer::{c_string_of, c_string_view, c_strings_match, ffi_free_string, ffi_to_c_string, no_nul, texts_convert, texts_view, to_c_strings};
use crate::release::sum_of;

verus! {

/// The kind of a repository: the base game or a numbered expansion.
#[derive(Clone, Copy, PartialEq, Eq, Structural, Debug)]
pub enum RepositoryType {
    Base,
    Expansion { number: i32 },
}

/// A repository of the game data: its name, kind and version, if known.
pub struct Repository {
    pub name: Vec<u8>,
    pub repo_type: RepositoryType,
    pub version: Option<Vec<u8>>,
}

/// An exported repository; a version that is not known is a null string.
pub struct physis_Repository {
    pub name: Vec<u8>,
    pub repository_type: RepositoryType,
    pub version: Option<Vec<u8>>,
}

/// Exported repositories, counted.
pub struct physis_Repositories {
    pub repositories_count: u32,
    pub repositories: Vec<physis_Repository>,
}

/// Exported sheet names, counted.
pub struct physis_SheetNames {
    pub name_count: u32,
    pub names: Vec<Vec<u8>>,
}

/// The version a repository exports with: its string, or a null one.
pub open spec fn version_converts(v: Option<Vec<u8>>) -> bool {
    match v {
        Some(t) => no_nul(t@),
        None => true,
    }
}

/// A repository exports: no text of it holds a NUL byte.
pub open spec fn repository_converts(r: Repository) -> bool {
    no_nul(r.name@) && version_converts(r.version)
}

/// The exported repository carries the decoded one.
pub open spec fn repository_matches(e: physis_Repository, r: Repository) -> bool {
    &&& c_string_of(r.name@) == Some(e.name@)
    &&& e.repository_type == r.repo_type
    &&& match r.version {
        Some(t) => c_string_of(t@) == c_string_view(e.version),
        None => e.version is None,
    }
}

/// A repository exports, as `e`.
pub open spec fn repository_exports(e: physis_Repository, r: Repository) -> bool {
    repository_converts(r) && repository_matches(e, r)
}

/// Exports one repository; `None` when a text holds a NUL byte.
pub fn to_c_repository(r: &Repository) -> (res: Option<physis_Repository>)
    ensures
        match res {
            None => !repository_converts(*r),
            Some(e) => repository_exports(e, *r),
        },
{
    let name = match ffi_to_c_string(&r.name) {
        Some(n) => n,
        None => return None,
    };
    let version = match &r.version {
        Some(v) => match ffi_to_c_string(v) {
            Some(c) => Some(c),
            None => return None,
        },
        None => None,
    };
    Some(physis_Repository { name, repository_type: r.repo_type, version })
}

/// Every repository exports, and their count fits.
pub open spec fn repositories_convert(rs: Seq<Repository>) -> bool {
    &&& rs.len() <= u32::MAX
    &&& forall|i: int| 0 <= i < rs.len() ==> repository_converts(#[trigger] rs[i])
}

/// The exported list carries the repositories, in order.
pub open spec fn repositories_match(e: physis_Repositories, rs: Seq<Repository>) -> bool {
    &&& e.repositories_count as int == rs.len()
    &&& e.repositories@.len() == rs.len()
    &&& forall|i: int| 0 <= i < rs.len() ==> repository_matches(#[trigger] e.repositories@[i], rs[i])
}

/// Exports a list of repositories; the empty list when any fails.
pub fn to_c_repositories(rs: &Vec<Repository>) -> (res: physis_Repositories)
    ensures
        repositories_convert(rs@) ==> repositories_match(res, rs@),
        !repositories_convert(rs@) ==> res.repositories_count == 0 && res.repositories@.len() == 0,
{
    if rs.len() > u32::MAX as usize {
        return physis_Repositories { repositories_count: 0, repositories: Vec::new() };
    }
    let mut out: Vec<physis_Repository> = Vec::new();
    let mut i: usize = 0;
    while i < rs.len()
        invariant
            rs@.len() <= u32::MAX,
            i <= rs@.len(),
            out@.len() == i,
            forall|m: int| 0 <= m < i ==> repository_exports(#[trigger] out@[m], rs@[m]),
        decreases rs@.len() - i,
    {
        match to_c_repository(&rs[i]) {
            Some(e) => {
                out.push(e);
                assert(out@[i as int] == e);
            },
            None => return physis_Repositories { repositories_count: 0, repositories: Vec::new() },
        }
        i = i + 1;
    }
    assert forall|m: int| 0 <= m < rs@.len() implies repository_converts(#[trigger] rs@[m])
        && repository_matches(out@[m], rs@[m]) by {
        assert(repository_exports(out@[m], rs@[m]));
    }
    physis_Repositories { repositories_count: out.len() as u32, repositories: out }
}

/// What releasing an exported repository destroys: the entry, its name and
/// its version, if any.
pub open spec fn c_repository_cost(e: physis_Repository) -> nat {
    2 + if e.version is Some { 1nat } else { 0nat }
}

/// What dropping a decoded repository destroys.
pub open spec fn repository_cost(r: Repository) -> nat {
    2 + if r.version is Some { 1nat } else { 0nat }
}

/// What releasing an exported list destroys.
pub open spec fn repositories_cost(e: physis_Repositories) -> nat {
    sum_of(e.repositories@.map_values(|r: physis_Repository| c_repository_cost(r)))
}

/// Releases exported repositories, returning how many elements were
/// destroyed. The empty list releases nothing.
pub fn physis_sqpack_free_repositories(repositories: physis_Repositories) -> (released: usize)
    requires
        repositories_cost(repositories) <= usize::MAX,
    ensures
        released == repositories_cost(repositories),
{
    let ghost total = repositories_cost(repositories);
    let mut rs = repositories.repositories;
    let mut released: usize = 0;
    while rs.len() > 0
        invariant
            total <= usize::MAX,
            released + sum_of(rs@.map_values(|r: physis_Repository| c_repository_cost(r))) == total,
        decreases rs@.len(),
    {
        let ghost before = rs@;
        let r = rs.pop().unwrap();
        assert(before.map_values(|r: physis_Repository| c_repository_cost(r)).drop_last()
            =~= rs@.map_values(|r: physis_Repository| c_repository_cost(r)));
        released = released + 1 + ffi_free_string(Some(r.name)) + ffi_free_string(r.version);
    }
    released
}

/// Releasing repositories exported from decoded ones destroys as many
/// elements as dropping those would.
pub proof fn lemma_repositories_release_matches_drop(rs: Seq<Repository>, e: physis_Repositories)
    requires
        repositories_convert(rs),
        repositories_match(e, rs),
    ensures
        repositories_cost(e) == sum_of(rs.map_values(|r: Repository| repository_cost(r))),
{
    assert forall|i: int| 0 <= i < rs.len() implies c_repository_cost(#[trigger] e.repositories@[i])
        == repository_cost(rs[i]) by {
        assert(repository_matches(e.repositories@[i], rs[i]));
    }
    assert(e.repositories@.map_values(|r: physis_Repository| c_repository_cost(r))
        =~= rs.map_values(|r: Repository| repository_cost(r)));
}

/// Exports sheet names; no names when any holds a NUL byte or there are
/// more than fit the count.
pub fn to_c_sheet_names(names: &Vec<Vec<u8>>) -> (r: physis_SheetNames)
    ensures
        names@.len() <= u32::MAX && texts_convert(texts_view(names@)) ==> r.name_count as int == names@.len()
            && c_strings_match(r.names@, texts_view(names@)),
        !(names@.len() <= u32::MAX && texts_convert(texts_view(names@))) ==> r.name_count == 0 && r.names@.len() == 0,
{
    if names.len() > u32::MAX as usize {
        return physis_SheetNames { name_count: 0, names: Vec::new() };
    }
    match to_c_strings(names) {
        Some(cs) => physis_SheetNames { name_count: cs.len() as u32, names: cs },
        None => physis_SheetNames { name_count: 0, names: Vec::new() },
    }
}

/// Releases exported sheet names, returning how many elements were
/// destroyed: each name's slot and its string. The empty list releases
/// nothing.
pub fn physis_sheet_names_free(names: physis_SheetNames) -> (released: usize)
    requires
        2 * names.names@.len() <= usize::MAX,
    ensures
        released == 2 * names.names@.len(),
{
    let ghost total = names.names@.len();
    let mut list = names.names;
    let mut released: usize = 0;
    while list.len() > 0
        invariant
            2 * total <= usize::MAX,
            released + 2 * list@.len() == 2 * total,
        decreases list@.len(),
    {
        let n = list.pop().unwrap();
        released = released + 1 + ffi_free_string(Some(n));
    }
    released
}

} // verus!
