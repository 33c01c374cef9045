use vstd::prelude::*;

verus! {

/// SSAO kernel sizes offered in the renderer settings, in menu order.
pub open spec fn ssao_kernel_sizes() -> Seq<u32> {
    seq![16u32, 32u32, 64u32, 128u32]
}

/// The kernel size shown at menu position `index`.
pub fn ssao_kernel_size(index: usize) -> (size: u32)
    requires
        index < 4,
    ensures
        size == ssao_kernel_sizes()[index as int],
{
    if index == 0 {
        16
    } else if index == 1 {
        32
    } else if index == 2 {
        64
    } else {
        128
    }
}

/// The menu position of an SSAO kernel size; the size must be one of the
/// offered ones.
pub fn get_kernel_size_index(size: u32) -> (index: usize)
    requires
        ssao_kernel_sizes().contains(size),
    ensures
        index < 4,
        ssao_kernel_sizes()[index as int] == size,
{
    proof {
        let k = choose|k: int| 0 <= k < 4 && ssao_kernel_sizes()[k] == size;
        assert(ssao_kernel_sizes()[k] == size);
    }
    let mut i: usize = 0;
    while i < 4
        invariant
            i <= 4,
            ssao_kernel_sizes().contains(size),
            forall|j: int| 0 <= j < i ==> ssao_kernel_sizes()[j] != size,
        decreases 4 - i,
    {
        if ssao_kernel_size(i) == size {
            return i;
        }
        i = i + 1;
    }
    proof {
        let k = choose|k: int| 0 <= k < ssao_kernel_sizes().len() && ssao_kernel_sizes()[k] == size;
        assert(ssao_kernel_sizes()[k] == size);
    }
    0
}

/// The offered kernel sizes are 16, 32, 64 and 128, in that order, each twice
/// the one before.
pub proof fn law_kernel_sizes_double()
    ensures
        ssao_kernel_sizes().len() == 4,
        ssao_kernel_sizes()[0] == 16,
        forall|i: int| 0 < i < 4 ==> #[trigger] ssao_kernel_sizes()[i] == 2 * ssao_kernel_sizes()[i
            - 1],
{
}

/// Menu positions and kernel sizes correspond one to one: the position that
/// `get_kernel_size_index` finds for the size at `index` is `index` itself.
pub proof fn law_kernel_size_index_roundtrip(index: int, found: int)
    requires
        0 <= index < 4,
        0 <= found < 4,
        ssao_kernel_sizes()[found] == ssao_kernel_sizes()[index],
    ensures
        found == index,
{
}

} // verus!
