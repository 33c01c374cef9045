use vstd::prelude::*;

verus! {

/// Number of texture slots a ray-traced model's material fills: albedo,
/// normal, metallic-roughness, occlusion and emissive, in that order.
pub const MATERIAL_SLOTS: usize = 5;

/// The texture indices a glTF material names for each slot.
#[derive(Clone, Copy, Debug, PartialEq, Eq, Structural)]
pub struct MaterialTextureIndices {
    pub base_color: Option<usize>,
    pub normal: Option<usize>,
    pub metallic_roughness: Option<usize>,
    pub occlusion: Option<usize>,
    pub emissive: Option<usize>,
}

/// A slot's entry: the texture index, or -1 for no texture.
pub open spec fn slot_entry(t: Option<usize>) -> i32 {
    match t {
        Some(i) => i as i32,
        None => -1i32,
    }
}

pub open spec fn slot_entries(m: MaterialTextureIndices) -> Seq<i32> {
    seq![
        slot_entry(m.base_color),
        slot_entry(m.normal),
        slot_entry(m.metallic_roughness),
        slot_entry(m.occlusion),
        slot_entry(m.emissive),
    ]
}

fn entry(t: Option<usize>) -> (r: i32)
    ensures
        r == slot_entry(t),
{
    match t {
        Some(i) => i as i32,
        None => -1,
    }
}

/// The slot table after going through all materials: every material
/// overwrites all five slots, so the last one decides; with no materials every
/// slot is -1.
pub fn material_image_index(materials: &Vec<MaterialTextureIndices>) -> (slots: Vec<i32>)
    ensures
        materials@.len() == 0 ==> slots@ == seq![-1i32, -1i32, -1i32, -1i32, -1i32],
        materials@.len() > 0 ==> slots@ == slot_entries(materials@.last()),
{
    let mut slots: Vec<i32> = Vec::new();
    slots.push(-1);
    slots.push(-1);
    slots.push(-1);
    slots.push(-1);
    slots.push(-1);
    let mut i: usize = 0;
    while i < materials.len()
        invariant
            i <= materials@.len(),
            i == 0 ==> slots@ == seq![-1i32, -1i32, -1i32, -1i32, -1i32],
            i > 0 ==> slots@ == slot_entries(materials@[i - 1]),
        decreases materials@.len() - i,
    {
        let m = materials[i];
        slots.set(0, entry(m.base_color));
        slots.set(1, entry(m.normal));
        slots.set(2, entry(m.metallic_roughness));
        slots.set(3, entry(m.occlusion));
        slots.set(4, entry(m.emissive));
        proof {
            assert(slots@ =~= slot_entries(materials@[i as int]));
        }
        i = i + 1;
    }
    proof {
        if materials@.len() == 0 {
            assert(slots@ =~= seq![-1i32, -1i32, -1i32, -1i32, -1i32]);
        }
    }
    slots
}

/// The slot table lists a material's albedo, normal, metallic-roughness,
/// occlusion and emissive textures in that order; a texture index that fits
/// an `i32` is kept as is and a missing texture is -1.
pub proof fn law_slot_order(m: MaterialTextureIndices)
    ensures
        slot_entries(m).len() == 5,
        slot_entries(m)[0] == slot_entry(m.base_color),
        slot_entries(m)[1] == slot_entry(m.normal),
        slot_entries(m)[2] == slot_entry(m.metallic_roughness),
        slot_entries(m)[3] == slot_entry(m.occlusion),
        slot_entries(m)[4] == slot_entry(m.emissive),
        slot_entry(None) == -1,
        forall|i: usize| i <= i32::MAX ==> #[trigger] slot_entry(Some(i)) == i,
{
}

/// The image a slot entry refers to among `image_count` loaded images, or
/// `None` when the entry is -1 or past the last image.
pub fn slot_image(entry: i32, image_count: usize) -> (r: Option<usize>)
    ensures
        r is Some <==> 0 <= entry < image_count,
        r matches Some(i) ==> i == entry,
{
    if entry < 0 {
        return None;
    }
    let e = entry as usize;
    if e < image_count {
        Some(e)
    } else {
        None
    }
}

/// Consecutive index triples, one per triangle; trailing indices that do not
/// make a whole triangle are dropped.
pub open spec fn triangles_spec(indices: Seq<u32>) -> Seq<[u32; 3]> {
    Seq::new(indices.len() / 3, |k: int| [indices[3 * k], indices[3 * k + 1], indices[3 * k + 2]])
}

/// Reading the triangles' corners one after another gives back the index
/// list, less the trailing indices that do not make a whole triangle.
pub proof fn law_triangles_flatten(indices: Seq<u32>)
    ensures
        triangles_spec(indices).len() * 3 + indices.len() % 3 == indices.len(),
        forall|j: int|
            0 <= j < triangles_spec(indices).len() * 3 ==> triangles_spec(indices)[j / 3][j % 3]
                == #[trigger] indices[j],
{
    assert forall|j: int| 0 <= j < triangles_spec(indices).len() * 3 implies triangles_spec(
        indices,
    )[j / 3][j % 3] == #[trigger] indices[j] by {
        let k = j / 3;
        assert(3 * k + j % 3 == j);
    }
}

/// Groups a model's index list into triangles.
pub fn triangle_indices(indices: &Vec<u32>) -> (triangles: Vec<[u32; 3]>)
    ensures
        triangles@ == triangles_spec(indices@),
{
    let num = indices.len() / 3;
    let mut triangles: Vec<[u32; 3]> = Vec::new();
    let mut idx: usize = 0;
    while idx < num
        invariant
            num == indices.len() / 3,
            indices.len() == indices@.len(),
            idx <= num,
            triangles@.len() == idx,
            forall|k: int|
                0 <= k < idx ==> #[trigger] triangles@[k] == [
                    indices@[3 * k],
                    indices@[3 * k + 1],
                    indices@[3 * k + 2],
                ],
        decreases num - idx,
    {
        triangles.push([indices[idx * 3], indices[idx * 3 + 1], indices[idx * 3 + 2]]);
        idx = idx + 1;
    }
    proof {
        assert(triangles@ =~= triangles_spec(indices@));
    }
    triangles
}

} // verus!
