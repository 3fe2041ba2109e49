//! Installations and user folders found on disk, exported as counted
//! arrays of entries whose paths are null-terminated strings.

use vstd::prelude::*;
use crate::buffer::{c_string_of, ffi_free_string, ffi_to_c_string, no_nul};

verus! {

/// The application an installation or user folder belongs to.
#[derive(Clone, Copy, PartialEq, Eq, Structural, Debug)]
pub enum ExistingInstallType {
    OfficialLauncher,
    XIVQuickLauncher,
    XIVLauncherCore,
    XIVOnMac,
    Astra,
}

/// A game installation found on disk: where it came from, its folder and
/// its latest version.
pub struct ExistingGameDirectory {
    pub install_type: ExistingInstallType,
    pub path: Vec<u8>,
    pub version: Vec<u8>,
}

/// A user folder found on disk.
pub struct ExistingUserDirectory {
    pub install_type: ExistingInstallType,
    pub path: Vec<u8>,
}

/// An exported game installation.
pub struct physis_ExistingGameDirectory {
    pub install_type: ExistingInstallType,
    pub path: Vec<u8>,
    pub version: Vec<u8>,
}

/// Exported game installations, counted.
pub struct physis_ExistingGameDirectories {
    pub count: u32,
    pub entries: Vec<physis_ExistingGameDirectory>,
}

/// An exported user folder.
pub struct physis_ExistingUserDirectory {
    pub install_type: ExistingInstallType,
    pub path: Vec<u8>,
}

/// Exported user folders, counted.
pub struct physis_ExistingUserDirectories {
    pub count: u32,
    pub entries: Vec<physis_ExistingUserDirectory>,
}

/// Every installation exports, and their count fits.
pub open spec fn game_dirs_convert(dirs: Seq<ExistingGameDirectory>) -> bool {
    &&& dirs.len() <= u32::MAX
    &&& forall|i: int| 0 <= i < dirs.len() ==> no_nul((#[trigger] dirs[i]).path@) && no_nul(dirs[i].version@)
}

/// The exported installation carries the found one.
pub open spec fn game_dir_matches(e: physis_ExistingGameDirectory, d: ExistingGameDirectory) -> bool {
    &&& e.install_type == d.install_type
    &&& c_string_of(d.path@) == Some(e.path@)
    &&& c_string_of(d.version@) == Some(e.version@)
}

/// Exports installations found on disk, in order; none when a path or
/// version holds a NUL byte.
pub fn to_c_game_dirs(dirs: &Vec<ExistingGameDirectory>) -> (r: physis_ExistingGameDirectories)
    ensures
        game_dirs_convert(dirs@) ==> r.count as int == dirs@.len() && r.entries@.len() == dirs@.len()
            && forall|i: int| 0 <= i < dirs@.len() ==> game_dir_matches(#[trigger] r.entries@[i], dirs@[i]),
        !game_dirs_convert(dirs@) ==> r.count == 0 && r.entries@.len() == 0,
{
    if dirs.len() > u32::MAX as usize {
        return physis_ExistingGameDirectories { count: 0, entries: Vec::new() };
    }
    let mut out: Vec<physis_ExistingGameDirectory> = Vec::new();
    let mut i: usize = 0;
    while i < dirs.len()
        invariant
            dirs@.len() <= u32::MAX,
            i <= dirs@.len(),
            out@.len() == i,
            forall|m: int| 0 <= m < i ==> game_dir_matches(#[trigger] out@[m], dirs@[m]),
        decreases dirs@.len() - i,
    {
        let d = &dirs[i];
        let path = match ffi_to_c_string(&d.path) {
            Some(p) => p,
            None => return physis_ExistingGameDirectories { count: 0, entries: Vec::new() },
        };
        let version = match ffi_to_c_string(&d.version) {
            Some(v) => v,
            None => return physis_ExistingGameDirectories { count: 0, entries: Vec::new() },
        };
        out.push(physis_ExistingGameDirectory { install_type: d.install_type, path, version });
        assert(game_dir_matches(out@[i as int], dirs@[i as int]));
        i = i + 1;
    }
    assert forall|m: int| 0 <= m < dirs@.len() implies no_nul((#[trigger] dirs@[m]).path@) && no_nul(dirs@[m].version@) by {
        assert(game_dir_matches(out@[m], dirs@[m]));
    }
    physis_ExistingGameDirectories { count: out.len() as u32, entries: out }
}

/// Every user folder exports, and their count fits.
pub open spec fn user_dirs_convert(dirs: Seq<ExistingUserDirectory>) -> bool {
    &&& dirs.len() <= u32::MAX
    &&& forall|i: int| 0 <= i < dirs.len() ==> no_nul((#[trigger] dirs[i]).path@)
}

/// The exported user folder carries the found one.
pub open spec fn user_dir_matches(e: physis_ExistingUserDirectory, d: ExistingUserDirectory) -> bool {
    e.install_type == d.install_type && c_string_of(d.path@) == Some(e.path@)
}

/// Exports user folders found on disk, in order; none when a path holds a
/// NUL byte.
pub fn to_c_user_dirs(dirs: &Vec<ExistingUserDirectory>) -> (r: physis_ExistingUserDirectories)
    ensures
        user_dirs_convert(dirs@) ==> r.count as int == dirs@.len() && r.entries@.len() == dirs@.len()
            && forall|i: int| 0 <= i < dirs@.len() ==> user_dir_matches(#[trigger] r.entries@[i], dirs@[i]),
        !user_dirs_convert(dirs@) ==> r.count == 0 && r.entries@.len() == 0,
{
    if dirs.len() > u32::MAX as usize {
        return physis_ExistingUserDirectories { count: 0, entries: Vec::new() };
    }
    let mut out: Vec<physis_ExistingUserDirectory> = Vec::new();
    let mut i: usize = 0;
    while i < dirs.len()
        invariant
            dirs@.len() <= u32::MAX,
            i <= dirs@.len(),
            out@.len() == i,
            forall|m: int| 0 <= m < i ==> user_dir_matches(#[trigger] out@[m], dirs@[m]),
        decreases dirs@.len() - i,
    {
        let d = &dirs[i];
        let path = match ffi_to_c_string(&d.path) {
            Some(p) => p,
            None => return physis_ExistingUserDirectories { count: 0, entries: Vec::new() },
        };
        out.push(physis_ExistingUserDirectory { install_type: d.install_type, path });
        assert(user_dir_matches(out@[i as int], dirs@[i as int]));
        i = i + 1;
    }
    assert forall|m: int| 0 <= m < dirs@.len() implies no_nul((#[trigger] dirs@[m]).path@) by {
        assert(user_dir_matches(out@[m], dirs@[m]));
    }
    physis_ExistingUserDirectories { count: out.len() as u32, entries: out }
}

/// Releases exported installations, returning how many elements were
/// destroyed: each entry, its path and its version. The empty list
/// releases nothing.
pub fn physis_existing_game_dirs_free(dirs: physis_ExistingGameDirectories) -> (released: usize)
    requires
        3 * dirs.entries@.len() <= usize::MAX,
    ensures
        released == 3 * dirs.entries@.len(),
{
    let ghost total = dirs.entries@.len();
    let mut list = dirs.entries;
    let mut released: usize = 0;
    while list.len() > 0
        invariant
            3 * total <= usize::MAX,
            released + 3 * list@.len() == 3 * total,
        decreases list@.len(),
    {
        let x = list.pop().unwrap();
        released = released + 1 + ffi_free_string(Some(x.path)) + ffi_free_string(Some(x.version));
    }
    released
}

/// Releases exported user folders, returning how many elements were
/// destroyed: each entry and its path. The empty list releases nothing.
pub fn physis_existing_user_dirs_free(dirs: physis_ExistingUserDirectories) -> (released: usize)
    requires
        2 * dirs.entries@.len() <= usize::MAX,
    ensures
        released == 2 * dirs.entries@.len(),
{
    let ghost total = dirs.entries@.len();
    let mut list = dirs.entries;
    let mut released: usize = 0;
    while list.len() > 0
        invariant
            2 * total <= usize::MAX,
            released + 2 * list@.len() == 2 * total,
        decreases list@.len(),
    {
        let x = list.pop().unwrap();
        released = released + 1 + ffi_free_string(Some(x.path));
    }
    released
}

} // verus!
