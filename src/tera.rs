//! Terrains: each plate's position and model file name, exported as a
//! counted array.

use vstd::prelude::*;
use crate::buffer::{c_string_of, ffi_free_string, ffi_to_c_string, no_nul};

verus! {

/// A terrain plate: its position, two floats as bit patterns, and the name
/// of its model file.
pub struct PlateModel {
    pub position: [u32; 2],
    pub filename: Vec<u8>,
}

/// An exported plate.
pub struct physis_PlateModel {
    pub position: [u32; 2],
    pub filename: Vec<u8>,
}

/// An exported terrain.
pub struct physis_Terrain {
    pub num_plates: i32,
    pub plates: Vec<physis_PlateModel>,
}

/// Every plate exports, and their count fits.
pub open spec fn plates_convert(plates: Seq<PlateModel>) -> bool {
    &&& plates.len() <= i32::MAX
    &&& forall|i: int| 0 <= i < plates.len() ==> no_nul((#[trigger] plates[i]).filename@)
}

/// The exported plate carries the decoded one.
pub open spec fn plate_matches(e: physis_PlateModel, p: PlateModel) -> bool {
    e.position == p.position && c_string_of(p.filename@) == Some(e.filename@)
}

/// Exports a terrain's plates, in order; the empty terrain when a file name
/// holds a NUL byte or there are more than fit the count.
pub fn to_c_terrain(plates: &Vec<PlateModel>) -> (r: physis_Terrain)
    ensures
        plates_convert(plates@) ==> r.num_plates as int == plates@.len() && r.plates@.len() == plates@.len()
            && forall|i: int| 0 <= i < plates@.len() ==> plate_matches(#[trigger] r.plates@[i], plates@[i]),
        !plates_convert(plates@) ==> r.num_plates == 0 && r.plates@.len() == 0,
{
    if plates.len() > i32::MAX as usize {
        return physis_Terrain { num_plates: 0, plates: Vec::new() };
    }
    let mut out: Vec<physis_PlateModel> = Vec::new();
    let mut i: usize = 0;
    while i < plates.len()
        invariant
            plates@.len() <= i32::MAX,
            i <= plates@.len(),
            out@.len() == i,
            forall|m: int| 0 <= m < i ==> plate_matches(#[trigger] out@[m], plates@[m]),
        decreases plates@.len() - i,
    {
        let p = &plates[i];
        let filename = match ffi_to_c_string(&p.filename) {
            Some(f) => f,
            None => return physis_Terrain { num_plates: 0, plates: Vec::new() },
        };
        out.push(physis_PlateModel { position: p.position, filename });
        assert(plate_matches(out@[i as int], plates@[i as int]));
        i = i + 1;
    }
    assert forall|m: int| 0 <= m < plates@.len() implies no_nul((#[trigger] plates@[m]).filename@) by {
        assert(plate_matches(out@[m], plates@[m]));
    }
    physis_Terrain { num_plates: out.len() as i32, plates: out }
}

/// Releases an exported terrain, returning how many elements were
/// destroyed: each plate and its file name. The sentinel releases nothing.
pub fn physis_terrain_free(terrain: physis_Terrain) -> (released: usize)
    requires
        2 * terrain.plates@.len() <= usize::MAX,
    ensures
        released == 2 * terrain.plates@.len(),
{
    let ghost total = terrain.plates@.len();
    let mut list = terrain.plates;
    let mut released: usize = 0;
    while list.len() > 0
        invariant
            2 * total <= usize::MAX,
            released + 2 * list@.len() == 2 * total,
        decreases list@.len(),
    {
        let x = list.pop().unwrap();
        released = released + 1 + ffi_free_string(Some(x.filename));
    }
    released
}

} // verus!
