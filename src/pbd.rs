//! Pre-bone deform matrices: for each bone, its name and a 3 by 4 matrix,
//! exported as a counted array.

use vstd::prelude::*;
use crate::buffer::{c_string_of, ffi_free_string, ffi_to_c_string, no_nul};

verus! {

/// A bone's deform: its name and twelve floats as bit patterns.
pub struct PreBoneDeformBone {
    pub name: Vec<u8>,
    pub deform: [u32; 12],
}

/// An exported bone deform.
pub struct physis_PreBoneDeformBone {
    pub name: Vec<u8>,
    pub deform: [u32; 12],
}

/// Exported deform matrices.
pub struct physis_PreBoneDeformMatrices {
    pub num_bones: i32,
    pub bones: Vec<physis_PreBoneDeformBone>,
}

/// Every bone exports, and their count fits.
pub open spec fn deform_bones_convert(bones: Seq<PreBoneDeformBone>) -> bool {
    &&& bones.len() <= i32::MAX
    &&& forall|i: int| 0 <= i < bones.len() ==> no_nul((#[trigger] bones[i]).name@)
}

/// The exported bone deform carries the decoded one.
pub open spec fn deform_bone_matches(e: physis_PreBoneDeformBone, b: PreBoneDeformBone) -> bool {
    e.deform == b.deform && c_string_of(b.name@) == Some(e.name@)
}

/// Exports deform matrices, bone by bone, in order; none when a name holds
/// a NUL byte or there are more than fit the count.
pub fn to_c_deform_matrices(bones: &Vec<PreBoneDeformBone>) -> (r: physis_PreBoneDeformMatrices)
    ensures
        deform_bones_convert(bones@) ==> r.num_bones as int == bones@.len() && r.bones@.len() == bones@.len()
            && forall|i: int| 0 <= i < bones@.len() ==> deform_bone_matches(#[trigger] r.bones@[i], bones@[i]),
        !deform_bones_convert(bones@) ==> r.num_bones == 0 && r.bones@.len() == 0,
{
    if bones.len() > i32::MAX as usize {
        return physis_PreBoneDeformMatrices { num_bones: 0, bones: Vec::new() };
    }
    let mut out: Vec<physis_PreBoneDeformBone> = Vec::new();
    let mut i: usize = 0;
    while i < bones.len()
        invariant
            bones@.len() <= i32::MAX,
            i <= bones@.len(),
            out@.len() == i,
            forall|m: int| 0 <= m < i ==> deform_bone_matches(#[trigger] out@[m], bones@[m]),
        decreases bones@.len() - i,
    {
        let b = &bones[i];
        let name = match ffi_to_c_string(&b.name) {
            Some(n) => n,
            None => return physis_PreBoneDeformMatrices { num_bones: 0, bones: Vec::new() },
        };
        out.push(physis_PreBoneDeformBone { name, deform: b.deform });
        assert(deform_bone_matches(out@[i as int], bones@[i as int]));
        i = i + 1;
    }
    assert forall|m: int| 0 <= m < bones@.len() implies no_nul((#[trigger] bones@[m]).name@) by {
        assert(deform_bone_matches(out@[m], bones@[m]));
    }
    physis_PreBoneDeformMatrices { num_bones: out.len() as i32, bones: out }
}

/// Releases exported deform matrices, returning how many elements were
/// destroyed: each bone and its name. The sentinel releases nothing.
pub fn physis_deform_matrices_free(matrices: physis_PreBoneDeformMatrices) -> (released: usize)
    requires
        2 * matrices.bones@.len() <= usize::MAX,
    ensures
        released == 2 * matrices.bones@.len(),
{
    let ghost total = matrices.bones@.len();
    let mut list = matrices.bones;
    let mut released: usize = 0;
    while list.len() > 0
        invariant
            2 * total <= usize::MAX,
            released + 2 * list@.len() == 2 * total,
        decreases list@.len(),
    {
        let x = list.pop().unwrap();
        released = released + 1 + ffi_free_string(Some(x.name));
    }
    released
}

} // verus!
