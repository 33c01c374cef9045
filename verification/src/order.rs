use vstd::prelude::*;
use core::cmp::Ordering;
use vstd::std_specs::cmp::PartialOrdSpec;

verus! {

/// Whether `S`'s `partial_cmp` is known to agree with its specification.
pub open spec fn obeys_order<S: PartialOrd>() -> bool {
    S::obeys_partial_cmp_spec()
}

/// `a` compares strictly greater than `b`.
pub open spec fn compares_greater<S: PartialOrd>(a: S, b: S) -> bool {
    a.partial_cmp_spec(&b) == Some(Ordering::Greater)
}

/// Whether `a.partial_cmp(b)` answers `Some(Greater)`; incomparable values
/// give `false`.
pub fn is_greater<S: PartialOrd>(a: &S, b: &S) -> (r: bool)
    ensures
        obeys_order::<S>() ==> r == compares_greater(*a, *b),
{
    match a.partial_cmp(b) {
        Some(Ordering::Greater) => true,
        _ => false,
    }
}

} // verus!
