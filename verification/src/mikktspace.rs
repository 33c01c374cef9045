use vstd::prelude::*;

verus! {

/// Vertices per triangle face.
pub const VERTEX_PER_FACE: usize = 3;

/// Whether tangents can be generated: there must be vertices, and the
/// indices, or the vertices when there are no indices, must form whole
/// triangles.
pub open spec fn can_generate_spec(index_count: nat, vertex_count: nat) -> bool {
    &&& vertex_count != 0
    &&& index_count > 0 ==> index_count % 3 == 0
    &&& index_count == 0 ==> vertex_count % 3 == 0
}

/// Tangents need at least one vertex; with indices their count must be a
/// multiple of three, and without indices the vertex count must be.
pub proof fn law_can_generate_cases(index_count: nat, vertex_count: nat)
    ensures
        vertex_count == 0 ==> !can_generate_spec(index_count, vertex_count),
        vertex_count > 0 && index_count > 0 ==> (can_generate_spec(index_count, vertex_count)
            <==> (index_count / 3) * 3 == index_count),
        vertex_count > 0 && index_count == 0 ==> (can_generate_spec(index_count, vertex_count)
            <==> (vertex_count / 3) * 3 == vertex_count),
{
}

/// Without indices, face `k` is the vertex numbers `3k`, `3k+1`, `3k+2`; with
/// indices, reading the faces' corners in order gives back the index list
/// (whose length is a whole number of triangles).
pub proof fn law_faces_cover(indices: Seq<u32>, vertex_count: u32, k: int)
    requires
        indices.len() % 3 == 0,
        0 <= k,
    ensures
        faces_spec(Some(indices), vertex_count).len() * 3 == indices.len(),
        k < faces_spec(Some(indices), vertex_count).len() ==> faces_spec(Some(indices), vertex_count)[k]
            == [indices[3 * k], indices[3 * k + 1], indices[3 * k + 2]],
        faces_spec(None, vertex_count).len() * 3 >= vertex_count,
        faces_spec(None, vertex_count).len() * 3 < vertex_count + 3,
        k < faces_spec(None, vertex_count).len() ==> faces_spec(None, vertex_count)[k][0] == 3 * k,
{
}

pub fn can_generate_inputs(index_count: usize, vertex_count: usize) -> (r: bool)
    ensures
        r == can_generate_spec(index_count as nat, vertex_count as nat),
{
    if vertex_count == 0 {
        return false;
    }
    if index_count > 0 && index_count % VERTEX_PER_FACE != 0 {
        return false;
    }
    if index_count == 0 && vertex_count % VERTEX_PER_FACE != 0 {
        return false;
    }
    true
}

/// The triangles tangent generation works on: consecutive index triples, or,
/// when the mesh has no indices, one triple of consecutive vertex numbers for
/// every third number below the vertex count taken as a `u32`.
pub open spec fn faces_spec(indices: Option<Seq<u32>>, vertex_count: u32) -> Seq<[u32; 3]> {
    match indices {
        Some(ix) => Seq::new(
            ix.len() / 3,
            |k: int| [ix[3 * k], ix[3 * k + 1], ix[3 * k + 2]],
        ),
        None => Seq::new(
            ((vertex_count + 2) / 3) as nat,
            |k: int| [(3 * k) as u32, (3 * k + 1) as u32, (3 * k + 2) as u32],
        ),
    }
}

/// The faces handed to the tangent generator, or `None` when the mesh cannot
/// have tangents generated (see `can_generate_inputs`, where an absent index
/// list counts as an empty one). Faces come from the index list whenever there
/// is one, even an empty one, and from the vertex order otherwise.
pub fn tangent_faces(indices: Option<&[u32]>, vertex_count: usize) -> (r: Option<Vec<[u32; 3]>>)
    ensures
        match r {
            Some(faces) => {
                let index_count: nat = match indices {
                    Some(ix) => ix@.len(),
                    None => 0,
                };
                &&& can_generate_spec(index_count, vertex_count as nat)
                &&& faces@ == faces_spec(
                    match indices {
                        Some(ix) => Some(ix@),
                        None => None,
                    },
                    #[verifier::truncate] (vertex_count as u32),
                )
            },
            None => !can_generate_spec(
                match indices {
                    Some(ix) => ix@.len(),
                    None => 0,
                },
                vertex_count as nat,
            ),
        },
{
    let index_count = match indices {
        Some(ix) => ix.len(),
        None => 0,
    };
    if !can_generate_inputs(index_count, vertex_count) {
        return None;
    }
    let mut faces: Vec<[u32; 3]> = Vec::new();
    match indices {
        Some(ix) => {
            let mut i: usize = 0;
            while i < index_count
                invariant
                    index_count == ix@.len(),
                    index_count % 3 == 0,
                    i % 3 == 0,
                    i <= index_count,
                    faces@.len() == i / 3,
                    forall|k: int|
                        0 <= k < faces@.len() ==> #[trigger] faces@[k] == [
                            ix@[3 * k],
                            ix@[3 * k + 1],
                            ix@[3 * k + 2],
                        ],
                decreases index_count - i,
            {
                faces.push([ix[i], ix[i + 1], ix[i + 2]]);
                i = i + 3;
            }
            proof {
                assert(faces@ =~= faces_spec(Some(ix@), #[verifier::truncate] (vertex_count as u32)));
            }
        },
        None => {
            let count = #[verifier::truncate] (vertex_count as u32);
            let mut i: u32 = 0;
            while i < count
                invariant
                    count == #[verifier::truncate] (vertex_count as u32),
                    i % 3 == 0,
                    i <= count + 2,
                    faces@.len() == i / 3,
                    forall|k: int|
                        0 <= k < faces@.len() ==> #[trigger] faces@[k] == [
                            (3 * k) as u32,
                            (3 * k + 1) as u32,
                            (3 * k + 2) as u32,
                        ],
                decreases count + 3 - i,
            {
                assert(i + 2 <= u32::MAX) by {
                    assert(u32::MAX % 3 == 0);
                }
                faces.push([i, i + 1, i + 2]);
                i = i + 3;
            }
            proof {
                assert(faces@.len() == (count + 2) / 3);
                assert(faces@ =~= faces_spec(None, #[verifier::truncate] (vertex_count as u32)));
            }
        },
    }
    Some(faces)
}

/// Whether a glTF primitive gets generated tangents: it has positions,
/// normals and first-set texture coordinates but no tangents of its own.
pub fn needs_generated_tangents(
    position_count: usize,
    normal_count: usize,
    tex_coord_count: usize,
    tangent_count: usize,
) -> (r: bool)
    ensures
        r == (position_count > 0 && normal_count > 0 && tex_coord_count > 0 && tangent_count
            == 0),
{
    position_count != 0 && normal_count != 0 && tex_coord_count != 0 && tangent_count == 0
}

} // verus!
