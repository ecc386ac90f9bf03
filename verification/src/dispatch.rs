//! Launching an elementwise binary operation: which kernel runs, what it is
//! bound to and which tensor holds the result.

use vstd::prelude::*;
use crate::kernel::KernelVariant;
use crate::shape::{
    broadcast_dims, broadcast_shape, checked_buffer_size, checked_contiguous_strides,
    contiguous_stride, covers, is_contiguous_layout, lemma_covers_iff_broadcast_keeps, max_dim,
    num_elements, strides_fit,
};

verus! {

/// What a launch reads of a tensor handle of rank `D`.
#[derive(Clone, Copy, Debug, PartialEq, Eq)]
pub struct TensorMeta<const D: usize> {
    /// The size of each axis.
    pub shape: [usize; D],
    /// The stride of each axis, in elements.
    pub strides: [usize; D],
    /// Whether the handle is the only live reference to its buffer.
    pub exclusive: bool,
}

/// The tensor whose element count gives the amount of parallel work.
#[derive(Clone, Copy, Debug, PartialEq, Eq, Structural)]
pub enum CountSettings {
    /// The input at this position.
    Input { pos: usize },
    /// The output at this position.
    Output { pos: usize },
}

/// One launch of a binary operation, with what it takes and what it leaves.
#[derive(Clone, Copy, Debug, PartialEq, Eq)]
pub struct Launch<const D: usize> {
    /// The kernel to run.
    pub variant: KernelVariant,
    /// The tensors bound as inputs, in this order.
    pub inputs: [TensorMeta<D>; 2],
    /// The tensor bound as the only output; `None` when the kernel works in
    /// place, where an input doubles as output.
    pub output: Option<TensorMeta<D>>,
    /// Where the amount of work is taken from.
    pub count: CountSettings,
    /// The size in bytes of the buffer to allocate for the output; `None`
    /// when there is no output.
    pub allocation: Option<usize>,
    /// The tensor that holds the result once the kernel has run.
    pub result: TensorMeta<D>,
}

impl<const D: usize> TensorMeta<D> {
    /// The tensor can hold, in place, the result of an operation with `other`:
    /// it is exclusively owned and no axis of the result is longer than its own.
    pub open spec fn absorbs(&self, other: &Self) -> bool {
        self.exclusive && covers(self.shape@, other.shape@)
    }

    /// Whether the buffer of this tensor can be overwritten with the result of
    /// an operation with `rhs`.
    pub fn can_mut_broadcast(&self, rhs: &Self) -> (can: bool)
        ensures
            can == self.absorbs(rhs),
    {
        if !self.exclusive {
            return false;
        }
        let mut index: usize = 0;
        while index < D
            invariant
                index <= D,
                self.shape@.len() == D,
                rhs.shape@.len() == D,
                forall|i: int| 0 <= i < index ==> self.shape@[i] >= rhs.shape@[i],
            decreases D - index,
        {
            if self.shape[index] < rhs.shape[index] {
                return false;
            }
            index += 1;
        }
        true
    }
}

/// The kernel that a launch on `lhs` and `rhs` runs: with in-place reuse
/// enabled, the one that overwrites the left operand if that operand can hold
/// the result, else the one that overwrites the right operand if that one can;
/// the plain kernel otherwise.
pub open spec fn chosen_variant<const D: usize>(
    lhs: &TensorMeta<D>,
    rhs: &TensorMeta<D>,
    inplace_enabled: bool,
) -> KernelVariant {
    if inplace_enabled && lhs.absorbs(rhs) {
        KernelVariant::InplaceLhs
    } else if inplace_enabled && rhs.absorbs(lhs) {
        KernelVariant::InplaceRhs
    } else {
        KernelVariant::Plain
    }
}

/// A new contiguous tensor of shape `dims` with elements of `elem_size` bytes
/// can be described: its strides and the size of its buffer fit in a `usize`.
pub open spec fn output_fits(dims: Seq<usize>, elem_size: usize) -> bool {
    &&& strides_fit(dims)
    &&& num_elements(dims) * elem_size <= usize::MAX
}

/// A launch on `lhs` and `rhs` can be described: it works in place, or its
/// new output can.
pub open spec fn launch_fits<const D: usize>(
    lhs: &TensorMeta<D>,
    rhs: &TensorMeta<D>,
    inplace_enabled: bool,
    elem_size: usize,
) -> bool {
    chosen_variant(lhs, rhs, inplace_enabled) == KernelVariant::Plain ==> output_fits(
        broadcast_dims(lhs.shape@, rhs.shape@),
        elem_size,
    )
}

impl<const D: usize> Launch<D> {
    /// The tensor that the amount of work is taken from, if the launch binds
    /// one at that position.
    pub open spec fn counted(&self) -> Option<TensorMeta<D>> {
        match self.count {
            CountSettings::Input { pos } => if pos < 2 {
                Some(self.inputs@[pos as int])
            } else {
                None
            },
            CountSettings::Output { pos } => if pos == 0 {
                self.output
            } else {
                None
            },
        }
    }

    /// `self` is the launch of a binary operation on `lhs` and `rhs`, whose
    /// elements take `elem_size` bytes each.
    ///
    /// The inputs are `lhs` and `rhs`, in this order. An in-place kernel has
    /// no output and nothing allocated: it takes the amount of work from the
    /// operand that it overwrites and leaves the result in that operand, whose
    /// shape and strides stay as they are. The plain kernel writes to a new,
    /// exclusively owned, contiguous tensor of the broadcast shape, takes the
    /// amount of work from it and has a buffer of one element size per element
    /// allocated for it.
    pub open spec fn dispatches(
        &self,
        lhs: &TensorMeta<D>,
        rhs: &TensorMeta<D>,
        inplace_enabled: bool,
        elem_size: usize,
    ) -> bool {
        &&& self.variant == chosen_variant(lhs, rhs, inplace_enabled)
        &&& self.inputs@ == seq![*lhs, *rhs]
        &&& match self.variant {
            KernelVariant::InplaceLhs => {
                &&& self.count == (CountSettings::Input { pos: 0 })
                &&& self.output is None
                &&& self.allocation is None
                &&& self.result == *lhs
            },
            KernelVariant::InplaceRhs => {
                &&& self.count == (CountSettings::Input { pos: 1 })
                &&& self.output is None
                &&& self.allocation is None
                &&& self.result == *rhs
            },
            KernelVariant::Plain => {
                &&& self.count == (CountSettings::Output { pos: 0 })
                &&& self.output == Some(self.result)
                &&& self.allocation matches Some(bytes) && bytes == num_elements(
                    self.result.shape@,
                ) * elem_size
                &&& self.result.shape@ == broadcast_dims(lhs.shape@, rhs.shape@)
                &&& is_contiguous_layout(self.result.strides@, self.result.shape@)
                &&& self.result.exclusive
            },
        }
    }
}

/// The new tensor that the plain kernel writes to and the size of its buffer
/// in bytes; `None` exactly when they cannot be described.
fn fresh_output<const D: usize>(lhs: &TensorMeta<D>, rhs: &TensorMeta<D>, elem_size: usize) -> (out:
    Option<(TensorMeta<D>, usize)>)
    ensures
        out is Some <==> output_fits(broadcast_dims(lhs.shape@, rhs.shape@), elem_size),
        out matches Some((meta, bytes)) ==> {
            &&& meta.shape@ == broadcast_dims(lhs.shape@, rhs.shape@)
            &&& is_contiguous_layout(meta.strides@, meta.shape@)
            &&& meta.exclusive
            &&& bytes == num_elements(meta.shape@) * elem_size
        },
{
    let shape_out = broadcast_shape(&lhs.shape, &rhs.shape);
    match checked_contiguous_strides(&shape_out) {
        Some(strides) => match checked_buffer_size(&shape_out, elem_size) {
            Some(bytes) => Some((TensorMeta { shape: shape_out, strides, exclusive: true }, bytes)),
            None => None,
        },
        None => None,
    }
}

/// Describes the launch of a binary operation on `lhs` and `rhs`.
///
/// Decides which kernel runs, what it is bound to, where the amount of work is
/// taken from, which tensor holds the result and how many bytes are allocated
/// for it. The shapes are taken as they are: that they can be broadcast
/// against each other is the caller's to see to.
pub fn binary<const D: usize>(
    lhs: &TensorMeta<D>,
    rhs: &TensorMeta<D>,
    inplace_enabled: bool,
    elem_size: usize,
) -> (launch: Launch<D>)
    requires
        launch_fits(lhs, rhs, inplace_enabled, elem_size),
    ensures
        launch.dispatches(lhs, rhs, inplace_enabled, elem_size),
{
    if inplace_enabled && lhs.can_mut_broadcast(rhs) {
        Launch {
            variant: KernelVariant::InplaceLhs,
            inputs: [*lhs, *rhs],
            output: None,
            count: CountSettings::Input { pos: 0 },
            allocation: None,
            result: *lhs,
        }
    } else if inplace_enabled && rhs.can_mut_broadcast(lhs) {
        Launch {
            variant: KernelVariant::InplaceRhs,
            inputs: [*lhs, *rhs],
            output: None,
            count: CountSettings::Input { pos: 1 },
            allocation: None,
            result: *rhs,
        }
    } else {
        let (result, bytes) = fresh_output(lhs, rhs, elem_size).unwrap();
        Launch {
            variant: KernelVariant::Plain,
            inputs: [*lhs, *rhs],
            output: Some(result),
            count: CountSettings::Output { pos: 0 },
            allocation: Some(bytes),
            result,
        }
    }
}

/// Describes the launch of a binary operation on `lhs` and `rhs`, if it can be
/// described: `None` exactly when the plain kernel has to run and the strides
/// of its output or the size of its buffer do not fit in a `usize`.
pub fn try_binary<const D: usize>(
    lhs: &TensorMeta<D>,
    rhs: &TensorMeta<D>,
    inplace_enabled: bool,
    elem_size: usize,
) -> (launch: Option<Launch<D>>)
    ensures
        launch is Some <==> launch_fits(lhs, rhs, inplace_enabled, elem_size),
        launch matches Some(l) ==> l.dispatches(lhs, rhs, inplace_enabled, elem_size),
{
    let in_place = inplace_enabled && (lhs.can_mut_broadcast(rhs) || rhs.can_mut_broadcast(lhs));
    if in_place || fresh_output(lhs, rhs, elem_size).is_some() {
        Some(binary(lhs, rhs, inplace_enabled, elem_size))
    } else {
        None
    }
}

/// A tensor can hold the result of an operation with another in place exactly
/// when it is exclusively owned and the result has its own shape.
pub proof fn lemma_absorbs_iff_result_keeps_shape<const D: usize>(a: TensorMeta<D>, b: TensorMeta<D>)
    ensures
        a.absorbs(&b) <==> a.exclusive && broadcast_dims(a.shape@, b.shape@) == a.shape@,
{
    lemma_covers_iff_broadcast_keeps(a.shape@, b.shape@);
}

/// The amount of work of a launch is taken from the tensor that holds its
/// result: one unit of work for each element that is written.
pub proof fn lemma_work_is_taken_from_result<const D: usize>(
    launch: Launch<D>,
    lhs: TensorMeta<D>,
    rhs: TensorMeta<D>,
    inplace_enabled: bool,
    elem_size: usize,
)
    requires
        launch.dispatches(&lhs, &rhs, inplace_enabled, elem_size),
    ensures
        launch.counted() == Some(launch.result),
{
}

/// There is one launch of an operation on given operands: two launches that
/// both are its launch are equal.
pub proof fn lemma_launch_unique<const D: usize>(
    a: Launch<D>,
    b: Launch<D>,
    lhs: TensorMeta<D>,
    rhs: TensorMeta<D>,
    inplace_enabled: bool,
    elem_size: usize,
)
    requires
        a.dispatches(&lhs, &rhs, inplace_enabled, elem_size),
        b.dispatches(&lhs, &rhs, inplace_enabled, elem_size),
    ensures
        a == b,
{
    assert(a.inputs@ =~= b.inputs@);
    assert(a.inputs == b.inputs);
    if a.variant == KernelVariant::Plain {
        assert(a.result.shape@ =~= b.result.shape@);
        assert(a.result.shape == b.result.shape);
        assert forall|i: int| 0 <= i < D implies a.result.strides@[i] == b.result.strides@[i] by {
            assert(a.result.strides@[i] == contiguous_stride(a.result.shape@, i));
            assert(b.result.strides@[i] == contiguous_stride(b.result.shape@, i));
        }
        assert(a.result.strides@ =~= b.result.strides@);
        assert(a.result.strides == b.result.strides);
    }
}

/// With in-place reuse enabled, an exclusively owned left operand that is at
/// least as large as the right one on every axis is overwritten: the result
/// is that operand, with its shape and strides, and nothing is allocated.
pub proof fn lemma_exclusive_lhs_is_reused<const D: usize>(
    launch: Launch<D>,
    lhs: TensorMeta<D>,
    rhs: TensorMeta<D>,
    elem_size: usize,
)
    requires
        lhs.exclusive,
        covers(lhs.shape@, rhs.shape@),
        launch.dispatches(&lhs, &rhs, true, elem_size),
    ensures
        launch.variant == KernelVariant::InplaceLhs,
        launch.result == lhs,
        launch.output is None,
        launch.allocation is None,
{
}

/// With in-place reuse enabled, an exclusively owned right operand that is at
/// least as large as the left one on every axis is overwritten, unless the
/// left operand is: the result is the right operand, with its shape and
/// strides, and nothing is allocated.
pub proof fn lemma_exclusive_rhs_is_reused<const D: usize>(
    launch: Launch<D>,
    lhs: TensorMeta<D>,
    rhs: TensorMeta<D>,
    elem_size: usize,
)
    requires
        rhs.exclusive,
        covers(rhs.shape@, lhs.shape@),
        !lhs.absorbs(&rhs),
        launch.dispatches(&lhs, &rhs, true, elem_size),
    ensures
        launch.variant == KernelVariant::InplaceRhs,
        launch.result == rhs,
        launch.output is None,
        launch.allocation is None,
{
}

/// Where in-place reuse is disabled, or neither operand can hold the result,
/// the plain kernel runs: the result is a new tensor, bound as output, whose
/// buffer is allocated for it and whose size on every axis is the larger of
/// the sizes of the operands.
pub proof fn lemma_new_output<const D: usize>(
    launch: Launch<D>,
    lhs: TensorMeta<D>,
    rhs: TensorMeta<D>,
    inplace_enabled: bool,
    elem_size: usize,
)
    requires
        !inplace_enabled || (!lhs.absorbs(&rhs) && !rhs.absorbs(&lhs)),
        launch.dispatches(&lhs, &rhs, inplace_enabled, elem_size),
    ensures
        launch.variant == KernelVariant::Plain,
        launch.output == Some(launch.result),
        launch.allocation is Some,
        launch.result.shape@.len() == D,
        forall|i: int|
            0 <= i < D ==> #[trigger] launch.result.shape@[i] == max_dim(
                lhs.shape@[i],
                rhs.shape@[i],
            ),
{
}

/// A launch allocates a buffer exactly when it has an output, which is exactly
/// when its kernel holds no in-place mapping: where an input is overwritten,
/// no buffer is asked for.
pub proof fn lemma_allocation_iff_output<const D: usize>(
    launch: Launch<D>,
    lhs: TensorMeta<D>,
    rhs: TensorMeta<D>,
    inplace_enabled: bool,
    elem_size: usize,
)
    requires
        launch.dispatches(&lhs, &rhs, inplace_enabled, elem_size),
    ensures
        launch.allocation is Some <==> launch.output is Some,
        launch.output is Some <==> launch.variant.mapping_spec() is None,
        launch.variant.mapping_spec() matches Some(mapping) ==> {
            &&& mapping.pos_output == 0
            &&& launch.count == (CountSettings::Input { pos: mapping.pos_input })
            &&& launch.result == launch.inputs@[mapping.pos_input as int]
        },
{
}

} // verus!
