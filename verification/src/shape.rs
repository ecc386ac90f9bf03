//! Shapes under broadcasting: per-axis maxima, element counts and the strides
//! of a contiguous layout.

use vstd::prelude::*;

verus! {

/// The larger of two dimension sizes.
pub open spec fn max_dim(a: usize, b: usize) -> usize {
    if a >= b {
        a
    } else {
        b
    }
}

/// The shape of the result of broadcasting `lhs` against `rhs`: on every axis
/// the larger of the two sizes.
pub open spec fn broadcast_dims(lhs: Seq<usize>, rhs: Seq<usize>) -> Seq<usize>
    recommends
        lhs.len() == rhs.len(),
{
    Seq::new(lhs.len(), |i: int| max_dim(lhs[i], rhs[i]))
}

/// `a` is at least as large as `b` on every axis, so that broadcasting `b`
/// against `a` never grows `a`.
pub open spec fn covers(a: Seq<usize>, b: Seq<usize>) -> bool {
    &&& a.len() == b.len()
    &&& forall|i: int| 0 <= i < a.len() ==> a[i] >= b[i]
}

/// On every axis the two sizes are equal or one of them is 1.
pub open spec fn broadcastable(lhs: Seq<usize>, rhs: Seq<usize>) -> bool {
    &&& lhs.len() == rhs.len()
    &&& forall|i: int| 0 <= i < lhs.len() ==> lhs[i] == rhs[i] || lhs[i] == 1 || rhs[i] == 1
}

/// No axis of `dims` is empty.
pub open spec fn no_empty_axis(dims: Seq<usize>) -> bool {
    forall|i: int| 0 <= i < dims.len() ==> dims[i] >= 1
}

/// The number of elements of a tensor of shape `dims`: the product of its
/// dimension sizes, 1 for rank 0.
pub open spec fn num_elements(dims: Seq<usize>) -> nat
    decreases dims.len(),
{
    if dims.len() == 0 {
        1
    } else {
        num_elements(dims.drop_last()) * (dims.last() as nat)
    }
}

/// The stride, in elements, of axis `axis` in the contiguous row-major layout
/// of `dims`: the number of elements spanned by the axes after it, so that the
/// last axis has stride 1.
pub open spec fn contiguous_stride(dims: Seq<usize>, axis: int) -> nat {
    num_elements(dims.skip(axis + 1))
}

/// `strides` are the strides of the contiguous row-major layout of `dims`.
pub open spec fn is_contiguous_layout(strides: Seq<usize>, dims: Seq<usize>) -> bool {
    &&& strides.len() == dims.len()
    &&& forall|i: int| 0 <= i < dims.len() ==> #[trigger] strides[i] == contiguous_stride(dims, i)
}

/// Every stride of the contiguous layout of `dims` fits in a `usize`.
pub open spec fn strides_fit(dims: Seq<usize>) -> bool {
    forall|i: int| 0 <= i < dims.len() ==> #[trigger] contiguous_stride(dims, i) <= usize::MAX
}

/// Broadcasting keeps the rank and takes, on every axis, the larger of the two
/// sizes, so that the result is at least as large as either operand. Where the
/// shapes can be broadcast against each other and have no empty axis, each
/// operand has, on every axis, the size of the result or size 1.
pub proof fn lemma_broadcast_dims(lhs: Seq<usize>, rhs: Seq<usize>)
    requires
        lhs.len() == rhs.len(),
    ensures
        broadcast_dims(lhs, rhs).len() == lhs.len(),
        forall|i: int|
            0 <= i < lhs.len() ==> #[trigger] broadcast_dims(lhs, rhs)[i] == max_dim(lhs[i], rhs[i]),
        covers(broadcast_dims(lhs, rhs), lhs),
        covers(broadcast_dims(lhs, rhs), rhs),
        broadcastable(lhs, rhs) && no_empty_axis(lhs) && no_empty_axis(rhs) ==> forall|i: int|
            0 <= i < lhs.len() ==> (lhs[i] == #[trigger] broadcast_dims(lhs, rhs)[i] || lhs[i] == 1)
                && (rhs[i] == broadcast_dims(lhs, rhs)[i] || rhs[i] == 1),
{
    if broadcastable(lhs, rhs) && no_empty_axis(lhs) && no_empty_axis(rhs) {
        assert forall|i: int| 0 <= i < lhs.len() implies (lhs[i] == #[trigger] broadcast_dims(
            lhs,
            rhs,
        )[i] || lhs[i] == 1) && (rhs[i] == broadcast_dims(lhs, rhs)[i] || rhs[i] == 1) by {
            assert(lhs[i] == rhs[i] || lhs[i] == 1 || rhs[i] == 1);
            assert(lhs[i] >= 1 && rhs[i] >= 1);
        }
    }
}

/// A shape is at least as large as another on every axis exactly when
/// broadcasting the other against it gives the shape itself.
pub proof fn lemma_covers_iff_broadcast_keeps(a: Seq<usize>, b: Seq<usize>)
    requires
        a.len() == b.len(),
    ensures
        covers(a, b) <==> broadcast_dims(a, b) == a,
{
    let out = broadcast_dims(a, b);
    if covers(a, b) {
        assert(out =~= a);
    }
    if out == a {
        assert forall|i: int| 0 <= i < a.len() implies a[i] >= b[i] by {
            assert(out[i] == max_dim(a[i], b[i]));
        }
    }
}

/// Splitting off the first of the remaining axes: the elements of the axes
/// from `i` on are `dims[i]` times those of the axes after `i`.
pub proof fn lemma_num_elements_skip(dims: Seq<usize>, i: int)
    requires
        0 <= i < dims.len(),
    ensures
        num_elements(dims.skip(i)) == (dims[i] as nat) * num_elements(dims.skip(i + 1)),
    decreases dims.len(),
{
    let tail = dims.skip(i);
    if i == dims.len() - 1 {
        assert(tail.drop_last() =~= Seq::<usize>::empty());
        assert(dims.skip(i + 1) =~= Seq::<usize>::empty());
        assert(num_elements(tail) == num_elements(tail.drop_last()) * (tail.last() as nat));
        assert(num_elements(tail.drop_last()) == 1);
        assert(num_elements(dims.skip(i + 1)) == 1);
    } else {
        let front = dims.drop_last();
        lemma_num_elements_skip(front, i);
        assert(tail.drop_last() =~= front.skip(i));
        assert(dims.skip(i + 1).drop_last() =~= front.skip(i + 1));
        assert(front[i] == dims[i]);
        assert(tail.last() == dims.last());
        assert(dims.skip(i + 1).last() == dims.last());
        let a = dims[i] as nat;
        let b = num_elements(front.skip(i + 1));
        let c = dims.last() as nat;
        assert(num_elements(tail) == (a * b) * c);
        assert(num_elements(dims.skip(i + 1)) == b * c);
        assert((a * b) * c == a * (b * c)) by (nonlinear_arith);
    }
}

/// A shape with an empty axis has no elements.
pub proof fn lemma_num_elements_zero(dims: Seq<usize>, k: int)
    requires
        0 <= k < dims.len(),
        dims[k] == 0,
    ensures
        num_elements(dims) == 0,
    decreases dims.len(),
{
    if k == dims.len() - 1 {
        assert(num_elements(dims.drop_last()) * 0 == 0) by (nonlinear_arith);
    } else {
        lemma_num_elements_zero(dims.drop_last(), k);
        assert(0 * (dims.last() as nat) == 0) by (nonlinear_arith);
    }
}

/// Computes the broadcast shape of two shapes of equal rank.
pub fn broadcast_shape<const D: usize>(lhs: &[usize; D], rhs: &[usize; D]) -> (out: [usize; D])
    ensures
        out@ == broadcast_dims(lhs@, rhs@),
{
    let mut out: [usize; D] = [0; D];
    let mut index: usize = 0;
    while index < D
        invariant
            index <= D,
            forall|i: int| 0 <= i < index ==> out@[i] == max_dim(lhs@[i], rhs@[i]),
        decreases D - index,
    {
        let dim_lhs: usize = lhs[index];
        let dim_rhs: usize = rhs[index];
        out[index] = if dim_lhs >= dim_rhs { dim_lhs } else { dim_rhs };
        index += 1;
    }
    out
}

/// Counts the elements of a tensor of shape `dims`; `None` exactly when the
/// count does not fit in a `usize`.
pub fn checked_num_elements<const D: usize>(dims: &[usize; D]) -> (count: Option<usize>)
    ensures
        count is Some <==> num_elements(dims@) <= usize::MAX,
        count matches Some(n) ==> n == num_elements(dims@),
{
    let mut acc: usize = 1;
    let mut fits: bool = true;
    let mut index: usize = 0;
    while index < D
        invariant
            index <= D,
            dims@.len() == D,
            forall|k: int| 0 <= k < index ==> dims@[k] >= 1,
            fits ==> acc == num_elements(dims@.take(index as int)),
            !fits ==> num_elements(dims@.take(index as int)) > usize::MAX,
        decreases D - index,
    {
        let dim: usize = dims[index];
        proof {
            let next = dims@.take(index + 1);
            assert(next.drop_last() =~= dims@.take(index as int));
            assert(next.last() == dim);
        }
        if dim == 0 {
            proof {
                lemma_num_elements_zero(dims@, index as int);
            }
            return Some(0);
        }
        if fits {
            match acc.checked_mul(dim) {
                Some(product) => {
                    acc = product;
                },
                None => {
                    fits = false;
                },
            }
        } else {
            let ghost p = num_elements(dims@.take(index as int));
            assert(p * (dim as nat) >= p) by (nonlinear_arith)
                requires
                    dim >= 1,
            ;
        }
        index += 1;
    }
    proof {
        assert(dims@.take(D as int) =~= dims@);
    }
    if fits {
        Some(acc)
    } else {
        None
    }
}

/// Computes the strides of the contiguous row-major layout of `dims`; `None`
/// exactly when one of them does not fit in a `usize`.
pub fn checked_contiguous_strides<const D: usize>(dims: &[usize; D]) -> (strides: Option<[usize; D]>)
    ensures
        strides is Some <==> strides_fit(dims@),
        strides matches Some(s) ==> is_contiguous_layout(s@, dims@),
{
    let mut strides: [usize; D] = [0; D];
    let mut current: usize = 1;
    let mut index: usize = D;
    proof {
        assert(dims@.skip(D as int) =~= Seq::<usize>::empty());
    }
    while index > 0
        invariant
            index <= D,
            dims@.len() == D,
            index > 0 ==> current == num_elements(dims@.skip(index as int)),
            forall|i: int| index <= i < D ==> #[trigger] strides@[i] == contiguous_stride(dims@, i),
        decreases index,
    {
        index -= 1;
        strides[index] = current;
        if index > 0 {
            proof {
                lemma_num_elements_skip(dims@, index as int);
            }
            match dims[index].checked_mul(current) {
                Some(product) => {
                    current = product;
                },
                None => {
                    proof {
                        assert(contiguous_stride(dims@, index - 1) > usize::MAX);
                    }
                    return None;
                },
            }
        }
    }
    proof {
        assert forall|i: int| 0 <= i < D implies #[trigger] contiguous_stride(dims@, i)
            <= usize::MAX by {
            assert(strides@[i] == contiguous_stride(dims@, i));
        }
    }
    Some(strides)
}

/// The size in bytes of a contiguous buffer for a tensor of shape `dims` whose
/// elements take `elem_size` bytes each; `None` exactly when the size does not
/// fit in a `usize`.
pub fn checked_buffer_size<const D: usize>(dims: &[usize; D], elem_size: usize) -> (bytes: Option<usize>)
    ensures
        bytes is Some <==> num_elements(dims@) * elem_size <= usize::MAX,
        bytes matches Some(b) ==> b == num_elements(dims@) * elem_size,
{
    if elem_size == 0 {
        assert(num_elements(dims@) * 0 == 0) by (nonlinear_arith);
        return Some(0);
    }
    match checked_num_elements(dims) {
        Some(count) => count.checked_mul(elem_size),
        None => {
            let ghost n = num_elements(dims@);
            assert(n * elem_size >= n) by (nonlinear_arith)
                requires
                    elem_size >= 1,
            ;
            None
        },
    }
}

} // verus!
