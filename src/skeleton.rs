//! Bone graphs: decoded bones linked by parent index become one flat array
//! whose back-references name elements of that same array.

use vstd::prelude::*;
use crate::buffer::{c_string_of, ffi_to_c_string, ffi_free_string, no_nul};

verus! {

/// A decoded bone: its name, its parent's index (`-1` for none) and its rest
/// transform, each float held as its bit pattern.
pub struct Bone {
    pub name: Vec<u8>,
    pub parent_index: i32,
    pub position: [u32; 3],
    pub rotation: [u32; 4],
    pub scale: [u32; 3],
}

/// What a decoded bone holds.
pub ghost struct BoneView {
    pub name: Seq<u8>,
    pub parent_index: i32,
    pub position: [u32; 3],
    pub rotation: [u32; 4],
    pub scale: [u32; 3],
}

impl View for Bone {
    type V = BoneView;

    open spec fn view(&self) -> BoneView {
        BoneView {
            name: self.name@,
            parent_index: self.parent_index,
            position: self.position,
            rotation: self.rotation,
            scale: self.scale,
        }
    }
}

/// The views of a sequence of decoded bones.
pub open spec fn bones_view(bones: Seq<Bone>) -> Seq<BoneView> {
    bones.map_values(|b: Bone| b@)
}

/// An exported bone. `parent_bone` is the position, in the same array, of
/// its parent, or `None` for a root.
pub struct physis_Bone {
    pub index: u32,
    pub name: Vec<u8>,
    pub parent_bone: Option<usize>,
    pub parent_index: u32,
    pub position: [u32; 3],
    pub rotation: [u32; 4],
    pub scale: [u32; 3],
}

/// An exported skeleton. Its array cannot be changed once built, so every
/// back-reference stays valid for as long as the skeleton lives.
pub struct physis_Skeleton {
    num_bones: u32,
    bones: Vec<physis_Bone>,
    root_bone: Option<usize>,
}

/// The back-reference for a parent index: none for `-1`.
pub open spec fn link_of(parent_index: i32) -> Option<usize> {
    if parent_index == -1 {
        None
    } else {
        Some(parent_index as usize)
    }
}

/// A parent index is `-1` or the index of a bone of the graph.
pub open spec fn parent_in_graph(parent_index: i32, n: nat) -> bool {
    parent_index == -1 || (0 <= parent_index < n)
}

/// Every bone can be exported: its name holds no NUL byte and its parent
/// index is `-1` or names a bone.
pub open spec fn skeleton_converts(bones: Seq<BoneView>) -> bool {
    forall|i: int| 0 <= i < bones.len() ==> {
        &&& parent_in_graph((#[trigger] bones[i]).parent_index, bones.len())
        &&& no_nul(bones[i].name)
    }
}

/// The exported bone at position `i` carries the decoded bone.
pub open spec fn bone_matches(b: physis_Bone, src: BoneView, i: int) -> bool {
    &&& b.index == i
    &&& c_string_of(src.name) == Some(b.name@)
    &&& b.parent_index == src.parent_index as u32
    &&& b.parent_bone == link_of(src.parent_index)
    &&& b.position == src.position
    &&& b.rotation == src.rotation
    &&& b.scale == src.scale
}

/// `root` is the first bone without a parent, if there is one.
pub open spec fn is_first_root(bones: Seq<BoneView>, root: Option<usize>) -> bool {
    match root {
        Some(k) => k < bones.len() && bones[k as int].parent_index == -1
            && forall|j: int| 0 <= j < k ==> (#[trigger] bones[j]).parent_index != -1,
        None => forall|j: int| 0 <= j < bones.len() ==> (#[trigger] bones[j]).parent_index != -1,
    }
}

impl physis_Skeleton {
    /// The exported bones, in decoded order.
    pub closed spec fn bones_spec(&self) -> Seq<physis_Bone> {
        self.bones@
    }

    /// The exported bone count.
    pub closed spec fn num_bones_spec(&self) -> u32 {
        self.num_bones
    }

    /// The position of the designated root.
    pub closed spec fn root_spec(&self) -> Option<usize> {
        self.root_bone
    }

    /// The skeleton exports `bones`: one element per bone, in order, each
    /// linked to its parent, and the first parentless bone as root.
    pub open spec fn materializes(&self, bones: Seq<BoneView>) -> bool {
        &&& self.num_bones_spec() as int == bones.len()
        &&& self.bones_spec().len() == bones.len()
        &&& forall|i: int| 0 <= i < bones.len() ==> bone_matches(#[trigger] self.bones_spec()[i], bones[i], i)
        &&& is_first_root(bones, self.root_spec())
    }

    /// The sentinel skeleton: no bones, no root.
    pub open spec fn is_empty(&self) -> bool {
        self.num_bones_spec() == 0 && self.bones_spec().len() == 0 && self.root_spec() is None
    }

    /// The sentinel skeleton.
    pub fn empty() -> (r: physis_Skeleton)
        ensures
            r.is_empty(),
    {
        physis_Skeleton { num_bones: 0, bones: Vec::new(), root_bone: None }
    }

    /// The number of bones.
    pub fn num_bones(&self) -> (r: u32)
        ensures
            r == self.num_bones_spec(),
    {
        self.num_bones
    }

    /// The bones, in decoded order.
    pub fn bones(&self) -> (r: &Vec<physis_Bone>)
        ensures
            r@ == self.bones_spec(),
    {
        &self.bones
    }

    /// The position of the designated root, if any.
    pub fn root_bone(&self) -> (r: Option<usize>)
        ensures
            r == self.root_spec(),
    {
        self.root_bone
    }
}

/// Exports decoded bones as one flat array. The array is placed in full
/// first; only then is each bone's back-reference taken, so no reference
/// is ever taken into a buffer that may still move. If any bone cannot be
/// exported, the result is the empty sentinel.
pub fn convert_skeleton(bones: &Vec<Bone>) -> (r: physis_Skeleton)
    requires
        bones@.len() <= u32::MAX,
    ensures
        skeleton_converts(bones_view(bones@)) ==> r.materializes(bones_view(bones@)),
        !skeleton_converts(bones_view(bones@)) ==> r.is_empty(),
{
    let ghost src = bones_view(bones@);
    let n = bones.len();
    let mut placed: Vec<physis_Bone> = Vec::new();
    let mut i: usize = 0;
    while i < n
        invariant
            src == bones_view(bones@),
            n == bones@.len(),
            n <= u32::MAX,
            i <= n,
            placed@.len() == i,
            forall|m: int| 0 <= m < i ==> {
                &&& (#[trigger] placed@[m]).index == m
                &&& c_string_of(src[m].name) == Some(placed@[m].name@)
                &&& placed@[m].parent_index == src[m].parent_index as u32
                &&& placed@[m].parent_bone is None
                &&& placed@[m].position == src[m].position
                &&& placed@[m].rotation == src[m].rotation
                &&& placed@[m].scale == src[m].scale
                &&& parent_in_graph(src[m].parent_index, n as nat)
                &&& no_nul(src[m].name)
            },
        decreases n - i,
    {
        let b = &bones[i];
        assert(src[i as int] == b@);
        let p = b.parent_index;
        if !(p == -1 || (0 <= p && (p as usize) < n)) {
            assert(!parent_in_graph(src[i as int].parent_index, src.len()));
            return physis_Skeleton::empty();
        }
        let name = match ffi_to_c_string(&b.name) {
            Some(c) => c,
            None => {
                assert(!no_nul(src[i as int].name));
                return physis_Skeleton::empty();
            },
        };
        placed.push(physis_Bone {
            index: i as u32,
            name,
            parent_bone: None,
            parent_index: #[verifier::truncate] (p as u32),
            position: b.position,
            rotation: b.rotation,
            scale: b.scale,
        });
        i = i + 1;
    }
    let mut j: usize = 0;
    while j < n
        invariant
            src == bones_view(bones@),
            n == bones@.len(),
            j <= n,
            placed@.len() == n,
            forall|m: int| 0 <= m < n ==> {
                &&& (#[trigger] placed@[m]).index == m
                &&& c_string_of(src[m].name) == Some(placed@[m].name@)
                &&& placed@[m].parent_index == src[m].parent_index as u32
                &&& placed@[m].parent_bone == (if m < j { link_of(src[m].parent_index) } else { None })
                &&& placed@[m].position == src[m].position
                &&& placed@[m].rotation == src[m].rotation
                &&& placed@[m].scale == src[m].scale
                &&& parent_in_graph(src[m].parent_index, n as nat)
                &&& no_nul(src[m].name)
            },
        decreases n - j,
    {
        let p = bones[j].parent_index;
        assert(src[j as int].parent_index == p);
        if p != -1 {
            placed[j].parent_bone = Some(p as usize);
        }
        j = j + 1;
    }
    let mut root: Option<usize> = None;
    let mut k: usize = 0;
    while k < n
        invariant_except_break
            root is None,
        invariant
            src == bones_view(bones@),
            n == bones@.len(),
            k <= n,
            forall|m: int| 0 <= m < k ==> (#[trigger] src[m]).parent_index != -1,
        ensures
            is_first_root(src, root),
        decreases n - k,
    {
        assert(src[k as int].parent_index == bones@[k as int].parent_index);
        if bones[k].parent_index == -1 {
            root = Some(k);
            break;
        }
        k = k + 1;
    }
    assert forall|m: int| 0 <= m < src.len() implies {
        &&& parent_in_graph((#[trigger] src[m]).parent_index, src.len())
        &&& no_nul(src[m].name)
    } by {
        assert(placed@[m].index == m);
    }
    let r = physis_Skeleton { num_bones: n as u32, bones: placed, root_bone: root };
    assert forall|m: int| 0 <= m < src.len() implies bone_matches(#[trigger] r.bones@[m], src[m], m) by {
        assert(placed@[m] == r.bones@[m]);
    }
    r
}

/// In a materialized skeleton every bone with a parent refers to the
/// element placed at its parent's index, which carries that parent; a bone
/// without one, the designated root among them, refers to nothing.
pub proof fn lemma_back_references(bones: Seq<BoneView>, s: physis_Skeleton)
    requires
        skeleton_converts(bones),
        s.materializes(bones),
    ensures
        forall|i: int| 0 <= i < bones.len() ==> match (#[trigger] s.bones_spec()[i]).parent_bone {
            None => bones[i].parent_index == -1,
            Some(j) => {
                &&& j as int == bones[i].parent_index
                &&& j < bones.len()
                &&& s.bones_spec()[j as int].index == j
                &&& bone_matches(s.bones_spec()[j as int], bones[j as int], j as int)
            },
        },
        match s.root_spec() {
            Some(r) => r < bones.len() && s.bones_spec()[r as int].parent_bone is None,
            None => forall|i: int| 0 <= i < bones.len() ==> (#[trigger] s.bones_spec()[i]).parent_bone is Some,
        },
{
    assert forall|i: int| 0 <= i < bones.len() implies match (#[trigger] s.bones_spec()[i]).parent_bone {
        None => bones[i].parent_index == -1,
        Some(j) => {
            &&& j as int == bones[i].parent_index
            &&& j < bones.len()
            &&& s.bones_spec()[j as int].index == j
            &&& bone_matches(s.bones_spec()[j as int], bones[j as int], j as int)
        },
    } by {
        assert(bone_matches(s.bones_spec()[i], bones[i], i));
        assert(parent_in_graph(bones[i].parent_index, bones.len()));
        if bones[i].parent_index != -1 {
            let j = bones[i].parent_index as int;
            assert(bone_matches(s.bones_spec()[j], bones[j], j));
        }
    }
    if s.root_spec() is None {
        assert forall|i: int| 0 <= i < bones.len() implies (#[trigger] s.bones_spec()[i]).parent_bone is Some by {
            assert(bones[i].parent_index != -1);
        }
    }
}

/// Releases an exported skeleton, returning how many elements were
/// destroyed: each bone and its name. The sentinel releases nothing.
pub fn physis_skeleton_free(skeleton: physis_Skeleton) -> (released: usize)
    requires
        2 * skeleton.bones_spec().len() <= usize::MAX,
    ensures
        released == 2 * skeleton.bones_spec().len(),
{
    let ghost total = skeleton.bones@.len();
    let mut bones = skeleton.bones;
    let mut released: usize = 0;
    while bones.len() > 0
        invariant
            2 * total <= usize::MAX,
            released + 2 * bones@.len() == 2 * total,
        decreases bones@.len(),
    {
        let b = bones.pop().unwrap();
        released = released + 1 + ffi_free_string(Some(b.name));
    }
    released
}

/// Dropping `n` decoded bones destroys each bone and its name; releasing
/// their export destroys as many.
pub proof fn lemma_skeleton_release_matches_drop(bones: Seq<BoneView>, s: physis_Skeleton)
    requires
        s.materializes(bones),
    ensures
        2 * s.bones_spec().len() == 2 * bones.len(),
{
}

} // verus!
