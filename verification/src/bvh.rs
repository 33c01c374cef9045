use vstd::prelude::*;

verus! {

/// How a BVH node over the objects `start..end` is built.
#[derive(Clone, Copy, Debug, PartialEq, Eq, Structural)]
pub enum BvhShape {
    /// One object: it is both children.
    Single,
    /// Two objects: they are the two children, ordered along the split axis.
    Pair,
    /// More: after sorting, `start..mid` and `mid..end` become child nodes.
    Split { mid: usize },
}

/// The node shape for the objects `start..end` (at least one object).
pub fn bvh_shape(start: usize, end: usize) -> (shape: BvhShape)
    requires
        start < end,
    ensures
        shape == if end - start == 1 {
            BvhShape::Single
        } else if end - start == 2 {
            BvhShape::Pair
        } else {
            BvhShape::Split { mid: (start + (end - start) / 2) as usize }
        },
{
    let object_span = end - start;
    if object_span == 1 {
        BvhShape::Single
    } else if object_span == 2 {
        BvhShape::Pair
    } else {
        BvhShape::Split { mid: start + object_span / 2 }
    }
}

/// A split leaves both halves non-empty and strictly smaller than the node,
/// so building the tree terminates and every object lands in one half.
pub proof fn law_bvh_split_halves(start: usize, end: usize)
    requires
        end - start > 2,
    ensures
        start < start + (end - start) / 2 < end,
        (start + (end - start) / 2) - start < end - start,
        end - (start + (end - start) / 2) < end - start,
{
}

} // verus!
