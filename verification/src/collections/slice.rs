//! Slice helpers that prefer borrowing over allocation.
use vstd::prelude::*;
use std::borrow::Cow;

verus! {

/// `bound` clamped into `0..=len`.
pub open spec fn clamp_bound_spec(bound: isize, len: int) -> int {
    if bound <= 0 {
        0
    } else if bound > len {
        len
    } else {
        bound as int
    }
}

fn clamp_bound(bound: isize, len: usize) -> (r: usize)
    ensures
        r == clamp_bound_spec(bound, len as int),
{
    if bound <= 0 {
        0
    } else if bound as usize > len {
        len
    } else {
        bound as usize
    }
}

/// Returns a subslice after clamping signed bounds into the valid slice range.
///
/// Negative bounds clamp to `0`, bounds past the end clamp to `slice.len()`,
/// and an `end` below the clamped start gives an empty subslice at the start.
pub fn clamped_subslice<T>(slice: &[T], start: isize, end: isize) -> (r: &[T])
    ensures
        ({
            let s = clamp_bound_spec(start, slice@.len() as int);
            let e = clamp_bound_spec(end, slice@.len() as int);
            r@ == slice@.subrange(s, if e < s { s } else { e })
        }),
{
    let s = clamp_bound(start, slice.len());
    let e0 = clamp_bound(end, slice.len());
    let e = if e0 < s { s } else { e0 };
    &slice[s..e]
}

/// Pads a slice to `new_len`, borrowing it when no padding is needed.
///
/// When `slice.len() >= new_len` the slice itself comes back, borrowed;
/// otherwise an owned vector holds clones of its elements followed by clones
/// of `fill` up to `new_len`.
pub fn pad_to<T: Clone>(slice: &[T], new_len: usize, fill: T) -> (r: Cow<'_, [T]>)
    ensures
        slice@.len() >= new_len ==> (r matches Cow::Borrowed(b) && b@ == slice@),
        slice@.len() < new_len ==> (r matches Cow::Owned(v) && v@.len() == new_len && (forall|i: int|
            0 <= i < slice@.len() ==> cloned::<T>(slice@[i], #[trigger] v@[i])) && (forall|i: int|
            slice@.len() <= i < new_len ==> cloned::<T>(fill, #[trigger] v@[i]))),
{
    if slice.len() >= new_len {
        return Cow::Borrowed(slice);
    }
    let mut output: Vec<T> = Vec::with_capacity(new_len);
    output.extend_from_slice(slice);
    let ghost before = output@;
    output.resize(new_len, fill);
    proof {
        assert forall|i: int| 0 <= i < slice@.len() implies cloned::<T>(slice@[i], #[trigger] output@[i]) by {
            assert(output@.subrange(0, before.len() as int)[i] == before[i]);
        }
    }
    Cow::Owned(output)
}

} // verus!
