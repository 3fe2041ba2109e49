//! Index file entries: each entry's hash split into directory and file
//! parts, exported as two counted arrays.

use vstd::prelude::*;

verus! {

/// The hash of an index entry: directory and file name hashed apart, or
/// the full path hashed at once.
#[derive(Clone, Copy, PartialEq, Eq, Structural, Debug)]
pub enum IndexHash {
    SplitPath { name: u32, path: u32 },
    FullPath(u32),
}

/// Exported index entries: `num_entries` entries, each with a directory
/// hash and a file hash at the same position.
pub struct physis_IndexEntries {
    pub num_entries: u32,
    pub dir_entries: Vec<u32>,
    pub filename_entries: Vec<u32>,
}

impl physis_IndexEntries {
    /// The sentinel: no entries.
    pub fn empty() -> (r: physis_IndexEntries)
        ensures
            r.num_entries == 0,
            r.dir_entries@.len() == 0,
            r.filename_entries@.len() == 0,
    {
        physis_IndexEntries { num_entries: 0, dir_entries: Vec::new(), filename_entries: Vec::new() }
    }
}

impl Default for physis_IndexEntries {
    fn default() -> (r: physis_IndexEntries)
        ensures
            r.num_entries == 0,
            r.dir_entries@.len() == 0,
            r.filename_entries@.len() == 0,
    {
        physis_IndexEntries::empty()
    }
}

/// The directory hash of an entry: its directory's, or 0 for an entry
/// that hashes its full path.
pub open spec fn dir_hash(h: IndexHash) -> u32 {
    match h {
        IndexHash::SplitPath { name, path } => path,
        IndexHash::FullPath(_) => 0,
    }
}

/// The file hash of an entry: its file name's, or its full path's.
pub open spec fn file_hash(h: IndexHash) -> u32 {
    match h {
        IndexHash::SplitPath { name, path } => name,
        IndexHash::FullPath(hash) => hash,
    }
}

/// Exports index entries: for every entry, its directory hash (0 where
/// the full path is hashed) and its file hash, in order.
pub fn to_c_index_entries(hashes: &Vec<IndexHash>) -> (r: physis_IndexEntries)
    requires
        hashes@.len() <= u32::MAX,
    ensures
        r.num_entries as int == hashes@.len(),
        r.dir_entries@ == hashes@.map_values(|h: IndexHash| dir_hash(h)),
        r.filename_entries@ == hashes@.map_values(|h: IndexHash| file_hash(h)),
{
    let mut dirs: Vec<u32> = Vec::new();
    let mut files: Vec<u32> = Vec::new();
    let mut i: usize = 0;
    while i < hashes.len()
        invariant
            i <= hashes@.len(),
            hashes@.len() <= u32::MAX,
            dirs@ == hashes@.subrange(0, i as int).map_values(|h: IndexHash| dir_hash(h)),
            files@ == hashes@.subrange(0, i as int).map_values(|h: IndexHash| file_hash(h)),
        decreases hashes@.len() - i,
    {
        match hashes[i] {
            IndexHash::SplitPath { name, path } => {
                files.push(name);
                dirs.push(path);
            },
            IndexHash::FullPath(hash) => {
                files.push(hash);
                dirs.push(0);
            },
        }
        i = i + 1;
        assert(dirs@ =~= hashes@.subrange(0, i as int).map_values(|h: IndexHash| dir_hash(h)));
        assert(files@ =~= hashes@.subrange(0, i as int).map_values(|h: IndexHash| file_hash(h)));
    }
    assert(hashes@.subrange(0, i as int) =~= hashes@);
    physis_IndexEntries { num_entries: files.len() as u32, dir_entries: dirs, filename_entries: files }
}

/// The 64-bit form of a hash: the directory hash above the file hash, or
/// the full path hash alone.
pub open spec fn combined_hash_spec(h: IndexHash) -> u64 {
    match h {
        IndexHash::SplitPath { name, path } => (path as int * 0x1_0000_0000 + name as int) as u64,
        IndexHash::FullPath(hash) => hash as u64,
    }
}

/// The 64-bit form of a hash.
pub fn combined_hash(h: IndexHash) -> (r: u64)
    ensures
        r == combined_hash_spec(h),
{
    match h {
        IndexHash::SplitPath { name, path } => {
            let p = path as u64;
            let n = name as u64;
            let r = (p << 32u64) | n;
            assert(r == p * 0x1_0000_0000 + n) by (bit_vector)
                requires
                    p <= 0xffff_ffff,
                    n <= 0xffff_ffff,
                    r == (p << 32u64) | n,
            ;
            r
        },
        IndexHash::FullPath(hash) => hash as u64,
    }
}

/// The index hash of a path's file part: a checksum of its lowercase form.
pub uninterp spec fn partial_hash_of(path: Seq<char>) -> u32;

/// Relies on physis::sqpack::SqPackIndex::calculate_partial_hash, whose
/// result depends on the text alone.
#[verifier::external_body]
fn partial_hash(path: &str) -> (r: u32)
    ensures
        r == partial_hash_of(path@),
{
    physis::sqpack::SqPackIndex::calculate_partial_hash(path)
}

/// The index hash of a file name.
pub fn physis_generate_partial_hash(name: &str) -> (r: u32)
    ensures
        r == partial_hash_of(name@),
{
    partial_hash(name)
}

/// Releases exported index entries, returning how many hashes were
/// destroyed. The sentinel releases nothing.
pub fn physis_index_entries_free(entries: physis_IndexEntries) -> (released: usize)
    requires
        entries.dir_entries@.len() + entries.filename_entries@.len() <= usize::MAX,
    ensures
        released == entries.dir_entries@.len() + entries.filename_entries@.len(),
{
    entries.dir_entries.len() + entries.filename_entries.len()
}

} // verus!
