//! The kernels of one elementwise binary operation: three variants that
//! compute the same thing and differ only in where the result is written.

use vstd::prelude::*;
use cubecl::ir::{Elem, KernelDefinition, Operation, Scope, Variable};
use crate::ir::{
    absolute_position, index_of, integrate, integrated, last_local, operation_count, register,
    root_scope, scope_last_local, scope_operation_count, scope_with, variable_index,
};

verus! {

/// How a kernel may touch an input buffer.
#[derive(Clone, Copy, Debug, PartialEq, Eq, Structural)]
pub enum Visibility {
    /// The buffer is only read.
    Read,
    /// The buffer is read and written.
    ReadWrite,
}

/// An array that a kernel takes as input.
#[derive(Clone, Copy, Debug)]
pub struct InputBinding {
    /// The kind of its elements.
    pub elem: Elem,
    /// How the kernel may touch it.
    pub visibility: Visibility,
}

/// An array that a kernel writes as output.
#[derive(Clone, Copy, Debug)]
pub struct OutputBinding {
    /// The kind of its elements.
    pub elem: Elem,
    /// The index of the local variable that holds the value to write.
    pub local: u16,
    /// The variable that holds the position to write at.
    pub position: Variable,
}

/// Why no kernel can be built from an operation.
#[derive(Clone, Copy, Debug, PartialEq, Eq, Structural)]
pub enum BuildError {
    /// The instruction of the operation is not the only one at the top level
    /// of its scope.
    NotSingleInstruction,
    /// The scope has no local variable with an index that could hold the
    /// result.
    NoResultLocal,
}

/// Declares that an output slot is materialised by overwriting the buffer of
/// an input slot.
#[derive(Clone, Copy, Debug, PartialEq, Eq, Structural)]
pub struct InplaceMapping {
    /// The position, among the inputs, of the array whose buffer is overwritten.
    pub pos_input: usize,
    /// The position, among the outputs, of the array that is written there.
    pub pos_output: usize,
}

/// The three kernels of one operation.
#[derive(Clone, Copy, Debug, PartialEq, Eq, Structural)]
pub enum KernelVariant {
    /// Writes the result to an output buffer of its own.
    Plain,
    /// Overwrites the buffer of the left operand.
    InplaceLhs,
    /// Overwrites the buffer of the right operand.
    InplaceRhs,
}

impl KernelVariant {
    /// The in-place mapping of the variant: none for the plain kernel, else
    /// output 0 onto the operand that is overwritten.
    pub open spec fn mapping_spec(self) -> Option<InplaceMapping> {
        match self {
            KernelVariant::Plain => None,
            KernelVariant::InplaceLhs => Some(InplaceMapping { pos_input: 0, pos_output: 0 }),
            KernelVariant::InplaceRhs => Some(InplaceMapping { pos_input: 1, pos_output: 0 }),
        }
    }

    /// The in-place mapping that the variant's kernel is built with.
    pub fn mapping(self) -> (mapping: Option<InplaceMapping>)
        ensures
            mapping == self.mapping_spec(),
    {
        match self {
            KernelVariant::Plain => None,
            KernelVariant::InplaceLhs => Some(InplaceMapping { pos_input: 0, pos_output: 0 }),
            KernelVariant::InplaceRhs => Some(InplaceMapping { pos_input: 1, pos_output: 0 }),
        }
    }
}

/// The inputs of the kernel of a binary operation on elements of kind `elem`:
/// the left and the right operand, two arrays that are only read.
pub open spec fn binary_inputs(elem: Elem) -> Seq<InputBinding> {
    seq![
        InputBinding { elem, visibility: Visibility::Read },
        InputBinding { elem, visibility: Visibility::Read },
    ]
}

/// The outputs of the kernel of a binary operation with results of kind
/// `elem`: one array, written at `position` from the local variable `local`.
pub open spec fn binary_outputs(elem: Elem, local: u16, position: Variable) -> Seq<OutputBinding> {
    seq![OutputBinding { elem, local, position }]
}

/// `scope` is as empty as a new root scope: it holds no instruction and no
/// local variable.
pub open spec fn is_empty_scope(scope: Scope) -> bool {
    scope_operation_count(scope) == 0 && scope_last_local(scope) is None
}

/// The index of the local variable that holds the result of the instruction
/// of `scope`: that of the local variable created last.
pub open spec fn result_local(scope: Scope) -> Option<u16> {
    match scope_last_local(scope) {
        Some(variable) => variable_index(variable),
        None => None,
    }
}

/// The kernel of the binary operation that was expanded in `scope` and whose
/// instruction is `operation`, with the in-place mapping `mapping`.
///
/// There is none where the scope holds an instruction already, so that
/// `operation` would not be the only one at its top level, and none where no
/// local variable of the scope can hold the result. Else the kernel is what
/// the integrator makes of the scope with `operation` registered, of the two
/// operands and of the one output, under settings that hold `mapping` and
/// nothing else.
pub open spec fn assembled(
    scope: Scope,
    operation: Operation,
    position: Variable,
    elem_in: Elem,
    elem_out: Elem,
    mapping: Option<InplaceMapping>,
) -> Result<KernelDefinition, BuildError> {
    if scope_operation_count(scope) != 0 {
        Err(BuildError::NotSingleInstruction)
    } else {
        match result_local(scope) {
            None => Err(BuildError::NoResultLocal),
            Some(local) => Ok(
                integrated(
                    scope_with(scope, operation),
                    binary_inputs(elem_in),
                    binary_outputs(elem_out, local, position),
                    mapping,
                ),
            ),
        }
    }
}

/// Declares the inputs of the kernel of a binary operation.
pub fn declare_inputs(elem: Elem) -> (inputs: Vec<InputBinding>)
    ensures
        inputs@ == binary_inputs(elem),
{
    let lhs = InputBinding { elem, visibility: Visibility::Read };
    let rhs = InputBinding { elem, visibility: Visibility::Read };
    let mut inputs: Vec<InputBinding> = Vec::new();
    inputs.push(lhs);
    inputs.push(rhs);
    inputs
}

/// Declares the output of the kernel of a binary operation.
pub fn declare_outputs(elem: Elem, local: u16, position: Variable) -> (outputs: Vec<OutputBinding>)
    ensures
        outputs@ == binary_outputs(elem, local, position),
{
    let out = OutputBinding { elem, local, position };
    let mut outputs: Vec<OutputBinding> = Vec::new();
    outputs.push(out);
    outputs
}

/// Assembles the kernel definition of a binary operation from its expansion.
///
/// `scope` is the scope in which the operation was expanded for operands of
/// kind `elem_in` at `position`, and `operation` the instruction that the
/// expansion returned. The instruction is registered, and its result, held by
/// the local variable created last, is written to the one output, of kind
/// `elem_out`, at `position`.
pub fn assemble(
    scope: Scope,
    operation: Operation,
    position: Variable,
    elem_in: Elem,
    elem_out: Elem,
    mapping: Option<InplaceMapping>,
) -> (built: Result<KernelDefinition, BuildError>)
    ensures
        built == assembled(scope, operation, position, elem_in, elem_out, mapping),
{
    let mut scope = scope;
    register(&mut scope, operation);
    if operation_count(&scope) != 1 {
        return Err(BuildError::NotSingleInstruction);
    }
    let local = match last_local(&scope) {
        Some(variable) => index_of(&variable),
        None => None,
    };
    match local {
        Some(local) => {
            let inputs = declare_inputs(elem_in);
            let outputs = declare_outputs(elem_out, local, position);
            Ok(integrate(scope, &inputs, &outputs, mapping))
        },
        None => Err(BuildError::NoResultLocal),
    }
}

/// Builds the kernel definition of a binary operation.
///
/// `ops` expands the operation: it is handed an empty root scope, the kind of
/// the operands and the variable that holds the position of the unit of work,
/// and returns the scope with what the operation reads and creates, and the
/// one instruction that computes the result. The kernel is assembled from what
/// it returned, whatever that is.
pub fn compile<F>(
    ops: F,
    elem_in: Elem,
    elem_out: Elem,
    mapping: Option<InplaceMapping>,
) -> (built: Result<KernelDefinition, BuildError>) where
    F: FnOnce(Scope, Elem, Variable) -> (Scope, Operation),

    requires
        forall|root: Scope, position: Variable|
            is_empty_scope(root) ==> #[trigger] ops.requires((root, elem_in, position)),
    ensures
        exists|root: Scope, position: Variable, scope: Scope, operation: Operation|
            is_empty_scope(root) && #[trigger] ops.ensures(
                (root, elem_in, position),
                (scope, operation),
            ) && built == assembled(scope, operation, position, elem_in, elem_out, mapping),
{
    let root = root_scope();
    let position = absolute_position();
    let (scope, operation) = ops(root, elem_in, position);
    assemble(scope, operation, position, elem_in, elem_out, mapping)
}

impl KernelVariant {
    /// Builds the kernel definition of this variant of a binary operation:
    /// that of `compile` with the in-place mapping of the variant.
    pub fn define<F>(self, ops: F, elem_in: Elem, elem_out: Elem) -> (built: Result<
        KernelDefinition,
        BuildError,
    >) where F: FnOnce(Scope, Elem, Variable) -> (Scope, Operation)
        requires
            forall|root: Scope, position: Variable|
                is_empty_scope(root) ==> #[trigger] ops.requires((root, elem_in, position)),
        ensures
            exists|root: Scope, position: Variable, scope: Scope, operation: Operation|
                is_empty_scope(root) && #[trigger] ops.ensures(
                    (root, elem_in, position),
                    (scope, operation),
                ) && built == assembled(
                    scope,
                    operation,
                    position,
                    elem_in,
                    elem_out,
                    self.mapping_spec(),
                ),
    {
        compile(ops, elem_in, elem_out, self.mapping())
    }
}

/// The kernels of the variants of one operation are made of the same scope,
/// the same inputs and the same output: they fail alike, and where they are
/// built they differ in the in-place mapping that the integrator is given and
/// in nothing else. The mapping tells the variants apart.
pub proof fn lemma_variants_differ_in_mapping_only(
    a: KernelVariant,
    b: KernelVariant,
    scope: Scope,
    operation: Operation,
    position: Variable,
    elem_in: Elem,
    elem_out: Elem,
)
    ensures
        a.mapping_spec() == b.mapping_spec() <==> a == b,
        ({
            let built_a = assembled(scope, operation, position, elem_in, elem_out, a.mapping_spec());
            let built_b = assembled(scope, operation, position, elem_in, elem_out, b.mapping_spec());
            let traced = scope_with(scope, operation);
            let inputs = binary_inputs(elem_in);
            let outputs = binary_outputs(elem_out, result_local(scope).unwrap(), position);
            &&& built_a is Ok <==> built_b is Ok
            &&& built_a is Err ==> built_a == built_b
            &&& built_a is Ok ==> {
                &&& built_a == Ok::<KernelDefinition, BuildError>(
                    integrated(traced, inputs, outputs, a.mapping_spec()),
                )
                &&& built_b == Ok::<KernelDefinition, BuildError>(
                    integrated(traced, inputs, outputs, b.mapping_spec()),
                )
            }
        }),
{
}

} // verus!
