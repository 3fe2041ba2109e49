//! Excel lists: the sheet names of the game data and their ids, exported
//! as parallel counted arrays.

use vstd::prelude::*;
use crate::buffer::{c_string_of, ffi_free_string, ffi_to_c_string, no_nul, physis_Buffer};
use crate::common::{GamePlatform, to_physis_platform};

verus! {

/// An exported excel list: its version, and for each entry its name,
/// null-terminated, and its id, at the same position.
pub struct physis_EXL {
    pub version: i32,
    pub entry_count: i32,
    pub entry_keys: Vec<Vec<u8>>,
    pub entry_values: Vec<i32>,
}

impl physis_EXL {
    /// The sentinel list: no version, no entries.
    pub open spec fn is_empty(&self) -> bool {
        self.version == 0 && self.entry_count == 0 && self.entry_keys@.len() == 0 && self.entry_values@.len() == 0
    }

    /// The sentinel list.
    pub fn empty() -> (r: physis_EXL)
        ensures
            r.is_empty(),
    {
        physis_EXL { version: 0, entry_count: 0, entry_keys: Vec::new(), entry_values: Vec::new() }
    }
}

/// The views of a list of entries.
pub open spec fn entries_view(entries: Seq<(Vec<u8>, i32)>) -> Seq<(Seq<u8>, i32)> {
    entries.map_values(|e: (Vec<u8>, i32)| (e.0@, e.1))
}

/// A list's entries export: no name holds a NUL byte, and their count fits.
pub open spec fn excel_list_converts(entries: Seq<(Seq<u8>, i32)>) -> bool {
    &&& entries.len() <= i32::MAX
    &&& forall|i: int| 0 <= i < entries.len() ==> no_nul((#[trigger] entries[i]).0)
}

/// The exported list carries the version and the entries, in order.
pub open spec fn excel_list_matches(e: physis_EXL, version: i32, entries: Seq<(Seq<u8>, i32)>) -> bool {
    &&& e.version == version
    &&& e.entry_count as int == entries.len()
    &&& e.entry_keys@.len() == entries.len()
    &&& e.entry_values@.len() == entries.len()
    &&& forall|i: int| 0 <= i < entries.len() ==> c_string_of((#[trigger] entries[i]).0) == Some(e.entry_keys@[i]@)
        && e.entry_values@[i] == entries[i].1
}

/// Exports an excel list; if a name holds a NUL byte, or there are more
/// entries than fit a signed 32-bit count, the result is the sentinel.
pub fn to_c_excel_list(version: i32, entries: &Vec<(Vec<u8>, i32)>) -> (r: physis_EXL)
    ensures
        excel_list_converts(entries_view(entries@)) ==> excel_list_matches(r, version, entries_view(entries@)),
        !excel_list_converts(entries_view(entries@)) ==> r.is_empty(),
{
    if entries.len() > i32::MAX as usize {
        return physis_EXL::empty();
    }
    let ghost src = entries_view(entries@);
    let mut keys: Vec<Vec<u8>> = Vec::new();
    let mut ids: Vec<i32> = Vec::new();
    let mut i: usize = 0;
    while i < entries.len()
        invariant
            src == entries_view(entries@),
            entries@.len() <= i32::MAX,
            i <= entries@.len(),
            keys@.len() == i,
            ids@.len() == i,
            forall|m: int| 0 <= m < i ==> c_string_of((#[trigger] src[m]).0) == Some(keys@[m]@) && ids@[m] == src[m].1,
        decreases entries@.len() - i,
    {
        let (name, id) = &entries[i];
        assert(src[i as int] == (name@, *id));
        match ffi_to_c_string(name) {
            Some(c) => {
                keys.push(c);
            },
            None => {
                assert(!no_nul(src[i as int].0));
                return physis_EXL::empty();
            },
        }
        ids.push(*id);
        i = i + 1;
    }
    assert forall|m: int| 0 <= m < src.len() implies no_nul((#[trigger] src[m]).0) by {
        assert(c_string_of(src[m].0) == Some(keys@[m]@));
    }
    physis_EXL { version, entry_count: keys.len() as i32, entry_keys: keys, entry_values: ids }
}

/// What reading an excel list yields: its version and its entries, each a
/// name and an id; `None` for bytes that are not one.
pub uninterp spec fn decoded_excel_list(data: Seq<u8>) -> Option<(i32, Seq<(Seq<u8>, i32)>)>;

/// Relies on physis::exl::EXL::from_existing, whose result depends on the
/// bytes alone; each name is handed over as its UTF-8 bytes.
#[verifier::external_body]
fn read_excel_list(platform: GamePlatform, data: &[u8]) -> (r: Option<(i32, Vec<(Vec<u8>, i32)>)>)
    ensures
        match r {
            None => decoded_excel_list(data@) is None,
            Some(l) => decoded_excel_list(data@) == Some((l.0, entries_view(l.1@))),
        },
{
    let exl = <physis::exl::EXL as physis::ReadableFile>::from_existing(to_physis_platform(platform), data)?;
    Some((exl.version, exl.entries.into_iter().map(|(name, id)| (name.into_bytes(), id)).collect()))
}

/// Reads an excel list and exports it; the sentinel when the bytes are not
/// one or an entry cannot be exported.
pub fn physis_gamedata_read_excel_list(platform: GamePlatform, buffer: &physis_Buffer) -> (r: physis_EXL)
    requires
        buffer.wf(),
    ensures
        match decoded_excel_list(buffer.data@) {
            None => r.is_empty(),
            Some(l) => if excel_list_converts(l.1) {
                excel_list_matches(r, l.0, l.1)
            } else {
                r.is_empty()
            },
        },
{
    match read_excel_list(platform, buffer.as_slice()) {
        None => physis_EXL::empty(),
        Some((version, entries)) => to_c_excel_list(version, &entries),
    }
}

/// Releases an exported excel list, returning how many elements were
/// destroyed: each name's slot and string, and each id. The sentinel
/// releases nothing.
pub fn physis_excel_list_free(list: physis_EXL) -> (released: usize)
    requires
        2 * list.entry_keys@.len() + list.entry_values@.len() <= usize::MAX,
    ensures
        released == 2 * list.entry_keys@.len() + list.entry_values@.len(),
{
    let ghost total = list.entry_keys@.len();
    let ids = list.entry_values.len();
    let mut keys = list.entry_keys;
    let mut released: usize = 0;
    while keys.len() > 0
        invariant
            2 * total + ids <= usize::MAX,
            released + 2 * keys@.len() == 2 * total,
        decreases keys@.len(),
    {
        let k = keys.pop().unwrap();
        released = released + 1 + ffi_free_string(Some(k));
    }
    released + ids
}

/// Releasing an excel list exported from decoded entries destroys as many
/// elements as dropping those entries would: each name, its bytes, and its
/// id.
pub proof fn lemma_excel_list_release_matches_drop(version: i32, entries: Seq<(Seq<u8>, i32)>, e: physis_EXL)
    requires
        excel_list_converts(entries),
        excel_list_matches(e, version, entries),
    ensures
        2 * e.entry_keys@.len() + e.entry_values@.len() == 3 * entries.len(),
{
}

} // verus!
