//! Patch lists: each patch's location, version, sizes and block hashes,
//! exported as counted arrays of null-terminated strings.

use vstd::prelude::*;
use crate::buffer::{c_string_of, c_strings_match, ffi_free_string, ffi_to_c_string, no_nul, texts_convert, texts_view, to_c_strings};
use crate::release::sum_of;

verus! {

/// A decoded patch.
pub struct PatchEntry {
    pub url: Vec<u8>,
    pub version: Vec<u8>,
    pub hash_block_size: i64,
    pub length: i64,
    pub size_on_disk: i64,
    pub hashes: Vec<Vec<u8>>,
}

/// A decoded patch list.
pub struct PatchList {
    pub patch_length: u64,
    pub patches: Vec<PatchEntry>,
}

/// An exported patch.
pub struct physis_PatchEntry {
    pub url: Vec<u8>,
    pub version: Vec<u8>,
    pub hash_count: u64,
    pub hashes: Vec<Vec<u8>>,
    pub hash_block_size: i64,
    pub length: i64,
    pub size_on_disk: i64,
}

/// An exported patch list.
pub struct physis_PatchList {
    pub patch_length: u64,
    pub num_entries: i32,
    pub entries: Vec<physis_PatchEntry>,
}

impl physis_PatchList {
    /// The sentinel list: no length, no entries.
    pub open spec fn is_empty(&self) -> bool {
        self.patch_length == 0 && self.num_entries == 0 && self.entries@.len() == 0
    }

    /// The sentinel list.
    pub fn empty() -> (r: physis_PatchList)
        ensures
            r.is_empty(),
    {
        physis_PatchList { patch_length: 0, num_entries: 0, entries: Vec::new() }
    }
}

impl Default for physis_PatchList {
    fn default() -> (r: physis_PatchList)
        ensures
            r.is_empty(),
    {
        physis_PatchList::empty()
    }
}

/// A decoded patch exports: its texts hold no NUL byte.
pub open spec fn patch_converts(p: PatchEntry) -> bool {
    no_nul(p.url@) && no_nul(p.version@) && texts_convert(texts_view(p.hashes@))
}

/// The exported patch carries the decoded one.
pub open spec fn patch_matches(e: physis_PatchEntry, p: PatchEntry) -> bool {
    &&& c_string_of(p.url@) == Some(e.url@)
    &&& c_string_of(p.version@) == Some(e.version@)
    &&& e.hash_count as int == p.hashes@.len()
    &&& c_strings_match(e.hashes@, texts_view(p.hashes@))
    &&& e.hash_block_size == p.hash_block_size
    &&& e.length == p.length
    &&& e.size_on_disk == p.size_on_disk
}

/// A decoded patch exports, as `e`.
pub open spec fn patch_exports(e: physis_PatchEntry, p: PatchEntry) -> bool {
    patch_converts(p) && patch_matches(e, p)
}

/// Exports one patch; `None` when any of its texts holds a NUL byte.
pub fn to_c_patch(p: &PatchEntry) -> (r: Option<physis_PatchEntry>)
    ensures
        match r {
            None => !patch_converts(*p),
            Some(e) => patch_exports(e, *p),
        },
{
    let url = match ffi_to_c_string(&p.url) {
        Some(u) => u,
        None => return None,
    };
    let version = match ffi_to_c_string(&p.version) {
        Some(v) => v,
        None => return None,
    };
    let hashes = match to_c_strings(&p.hashes) {
        Some(h) => h,
        None => return None,
    };
    Some(physis_PatchEntry {
        url,
        version,
        hash_count: hashes.len() as u64,
        hashes,
        hash_block_size: p.hash_block_size,
        length: p.length,
        size_on_disk: p.size_on_disk,
    })
}

/// Every patch exports, and their count fits the exported count.
pub open spec fn list_converts(l: PatchList) -> bool {
    &&& l.patches@.len() <= i32::MAX
    &&& forall|i: int| 0 <= i < l.patches@.len() ==> patch_converts(#[trigger] l.patches@[i])
}

/// The exported list carries the decoded one, patch by patch, in order.
pub open spec fn list_matches(e: physis_PatchList, l: PatchList) -> bool {
    &&& e.patch_length == l.patch_length
    &&& e.num_entries as int == l.patches@.len()
    &&& e.entries@.len() == l.patches@.len()
    &&& forall|i: int| 0 <= i < l.patches@.len() ==> patch_matches(#[trigger] e.entries@[i], l.patches@[i])
}

/// Exports a decoded patch list; if any patch fails to export, or there are
/// more than fit a signed 32-bit count, the result is the empty sentinel.
pub fn to_c_patchlist(l: &PatchList) -> (r: physis_PatchList)
    ensures
        list_converts(*l) ==> list_matches(r, *l),
        !list_converts(*l) ==> r.is_empty(),
{
    if l.patches.len() > i32::MAX as usize {
        return physis_PatchList::empty();
    }
    let mut out: Vec<physis_PatchEntry> = Vec::new();
    let mut i: usize = 0;
    while i < l.patches.len()
        invariant
            l.patches@.len() <= i32::MAX,
            i <= l.patches@.len(),
            out@.len() == i,
            forall|m: int| 0 <= m < i ==> patch_exports(#[trigger] out@[m], l.patches@[m]),
        decreases l.patches@.len() - i,
    {
        match to_c_patch(&l.patches[i]) {
            Some(e) => {
                out.push(e);
                assert(out@[i as int] == e);
            },
            None => return physis_PatchList::empty(),
        }
        i = i + 1;
    }
    assert forall|m: int| 0 <= m < l.patches@.len() implies patch_converts(#[trigger] l.patches@[m]) by {
        assert(patch_exports(out@[m], l.patches@[m]));
    }
    assert forall|m: int| 0 <= m < l.patches@.len() implies patch_matches(#[trigger] out@[m], l.patches@[m]) by {
        assert(patch_exports(out@[m], l.patches@[m]));
    }
    physis_PatchList { patch_length: l.patch_length, num_entries: out.len() as i32, entries: out }
}

/// What releasing an exported patch destroys: the patch, its two strings,
/// and each hash's slot and string.
pub open spec fn c_patch_cost(e: physis_PatchEntry) -> nat {
    3 + 2 * e.hashes@.len()
}

/// What releasing an exported list destroys.
pub open spec fn patchlist_cost(e: physis_PatchList) -> nat {
    sum_of(e.entries@.map_values(|p: physis_PatchEntry| c_patch_cost(p)))
}

/// What dropping a decoded patch destroys.
pub open spec fn patch_cost(p: PatchEntry) -> nat {
    3 + 2 * p.hashes@.len()
}

/// What dropping a decoded list destroys.
pub open spec fn patches_cost(l: PatchList) -> nat {
    sum_of(l.patches@.map_values(|p: PatchEntry| patch_cost(p)))
}

fn release_hashes(hashes: Vec<Vec<u8>>) -> (released: usize)
    requires
        2 * hashes@.len() <= usize::MAX,
    ensures
        released == 2 * hashes@.len(),
{
    let ghost total = hashes@.len();
    let mut hashes = hashes;
    let mut released: usize = 0;
    while hashes.len() > 0
        invariant
            2 * total <= usize::MAX,
            released + 2 * hashes@.len() == 2 * total,
        decreases hashes@.len(),
    {
        let h = hashes.pop().unwrap();
        released = released + 1 + ffi_free_string(Some(h));
    }
    released
}

/// Releases an exported patch list and everything it holds, returning how
/// many elements were destroyed. The sentinel releases nothing.
pub fn physis_patchlist_free(list: physis_PatchList) -> (released: usize)
    requires
        patchlist_cost(list) <= usize::MAX,
    ensures
        released == patchlist_cost(list),
{
    let ghost total = patchlist_cost(list);
    let mut entries = list.entries;
    let mut released: usize = 0;
    while entries.len() > 0
        invariant
            total <= usize::MAX,
            released + sum_of(entries@.map_values(|p: physis_PatchEntry| c_patch_cost(p))) == total,
        decreases entries@.len(),
    {
        let ghost before = entries@;
        let e = entries.pop().unwrap();
        assert(before.map_values(|p: physis_PatchEntry| c_patch_cost(p)).drop_last()
            =~= entries@.map_values(|p: physis_PatchEntry| c_patch_cost(p)));
        let strings = ffi_free_string(Some(e.url)) + ffi_free_string(Some(e.version));
        released = released + 1 + strings + release_hashes(e.hashes);
    }
    released
}

/// Releasing a patch list exported from a decoded one destroys exactly as
/// many elements as dropping the decoded list would.
pub proof fn lemma_patchlist_release_matches_drop(l: PatchList, e: physis_PatchList)
    requires
        list_converts(l),
        list_matches(e, l),
    ensures
        patchlist_cost(e) == patches_cost(l),
{
    assert forall|i: int| 0 <= i < l.patches@.len() implies c_patch_cost(#[trigger] e.entries@[i])
        == patch_cost(l.patches@[i]) by {
        assert(patch_matches(e.entries@[i], l.patches@[i]));
    }
    assert(e.entries@.map_values(|p: physis_PatchEntry| c_patch_cost(p))
        =~= l.patches@.map_values(|p: PatchEntry| patch_cost(p)));
}

} // verus!
