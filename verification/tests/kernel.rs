use cubecl::ir::{
    BinaryOperator, Elem, FloatKind, IntKind, Item, KernelDefinition, Operation, Operator,
    Procedure, Scope, Variable, Visibility,
};
use jit_binary::kernel::{
    assemble, compile, declare_inputs, declare_outputs, BuildError, InplaceMapping, KernelVariant,
};
use jit_binary::kernel::Visibility as Access;

fn float() -> Elem {
    Elem::Float(FloatKind::F32)
}

fn add(mut scope: Scope, elem: Elem, position: Variable) -> (Scope, Operation) {
    let lhs = scope.read_array(0, elem, position);
    let rhs = scope.read_array(1, elem, position);
    let out = scope.create_local(elem);
    (scope, Operator::Add(BinaryOperator { lhs, rhs, out }).into())
}

fn no_local(scope: Scope, _elem: Elem, position: Variable) -> (Scope, Operation) {
    (scope, Operator::Add(BinaryOperator { lhs: position, rhs: position, out: position }).into())
}

fn traced(elem: Elem) -> (Scope, Operation) {
    add(Scope::root(), elem, Variable::AbsolutePos)
}

fn define(variant: KernelVariant, elem_in: Elem, elem_out: Elem) -> KernelDefinition {
    variant.define(add, elem_in, elem_out).unwrap()
}

fn writes(definition: &KernelDefinition) -> Vec<(Variable, Variable, Variable)> {
    let mut found = Vec::new();
    for operation in definition.body.clone().process().operations {
        if let Operation::Procedure(Procedure::WriteGlobal(write)) = operation {
            found.push((write.input, write.global, write.position));
        }
    }
    found
}

#[test]
fn variants_carry_their_mapping() {
    assert_eq!(KernelVariant::Plain.mapping(), None);
    assert_eq!(
        KernelVariant::InplaceLhs.mapping(),
        Some(InplaceMapping { pos_input: 0, pos_output: 0 })
    );
    assert_eq!(
        KernelVariant::InplaceRhs.mapping(),
        Some(InplaceMapping { pos_input: 1, pos_output: 0 })
    );
}

#[test]
fn inputs_are_two_read_only_arrays() {
    let inputs = declare_inputs(float());
    assert_eq!(inputs.len(), 2);
    for input in inputs {
        assert_eq!(input.elem, float());
        assert_eq!(input.visibility, Access::Read);
    }
}

#[test]
fn output_is_one_array_written_from_the_local() {
    let outputs = declare_outputs(Elem::UInt, 7, Variable::AbsolutePos);
    assert_eq!(outputs.len(), 1);
    assert_eq!(outputs[0].elem, Elem::UInt);
    assert_eq!(outputs[0].local, 7);
    assert_eq!(outputs[0].position, Variable::AbsolutePos);
}

#[test]
fn plain_kernel_has_two_inputs_and_one_output() {
    let definition = define(KernelVariant::Plain, float(), float());
    assert_eq!(definition.inputs.len(), 2);
    assert_eq!(definition.inputs[0].visibility, Visibility::Read);
    assert_eq!(definition.inputs[1].visibility, Visibility::Read);
    assert_eq!(definition.inputs[0].item, Item::new(float()));
    assert_eq!(definition.inputs[1].item, Item::new(float()));
    assert_eq!(definition.outputs.len(), 1);
    assert_eq!(definition.outputs[0].item, Item::new(float()));
    assert_eq!(definition.outputs[0].visibility, Visibility::ReadWrite);
}

#[test]
fn plain_kernel_writes_the_last_local_to_the_output() {
    let definition = define(KernelVariant::Plain, float(), float());
    let item = Item::new(float());
    assert_eq!(
        writes(&definition),
        vec![(
            Variable::Local { id: 2, item, depth: 0 },
            Variable::GlobalOutputArray { id: 0, item },
            Variable::AbsolutePos,
        )]
    );
}

#[test]
fn inplace_lhs_kernel_overwrites_the_first_input() {
    let definition = define(KernelVariant::InplaceLhs, float(), float());
    assert_eq!(definition.inputs.len(), 2);
    assert_eq!(definition.inputs[0].visibility, Visibility::ReadWrite);
    assert_eq!(definition.inputs[1].visibility, Visibility::Read);
    assert_eq!(definition.outputs.len(), 0);
    let item = Item::new(float());
    assert_eq!(
        writes(&definition),
        vec![(
            Variable::Local { id: 2, item, depth: 0 },
            Variable::GlobalInputArray { id: 0, item },
            Variable::AbsolutePos,
        )]
    );
}

#[test]
fn inplace_rhs_kernel_overwrites_the_second_input() {
    let definition = define(KernelVariant::InplaceRhs, float(), float());
    assert_eq!(definition.inputs.len(), 2);
    assert_eq!(definition.inputs[0].visibility, Visibility::Read);
    assert_eq!(definition.inputs[1].visibility, Visibility::ReadWrite);
    assert_eq!(definition.outputs.len(), 0);
    let item = Item::new(float());
    assert_eq!(
        writes(&definition),
        vec![(
            Variable::Local { id: 2, item, depth: 0 },
            Variable::GlobalInputArray { id: 1, item },
            Variable::AbsolutePos,
        )]
    );
}

#[test]
fn variants_hold_the_same_instruction() {
    let plain = define(KernelVariant::Plain, float(), float());
    let lhs = define(KernelVariant::InplaceLhs, float(), float());
    let rhs = define(KernelVariant::InplaceRhs, float(), float());
    assert_eq!(plain.body.operations.len(), 1);
    assert_eq!(plain.body.operations, lhs.body.operations);
    assert_eq!(plain.body.operations, rhs.body.operations);
    assert_eq!(plain.cube_dim, lhs.cube_dim);
    assert_eq!(plain.cube_dim, rhs.cube_dim);
}

#[test]
fn output_kind_may_differ_from_input_kind() {
    let definition = define(KernelVariant::Plain, Elem::Int(IntKind::I32), Elem::UInt);
    assert_eq!(definition.inputs[0].item, Item::new(Elem::Int(IntKind::I32)));
    assert_eq!(definition.inputs[1].item, Item::new(Elem::Int(IntKind::I32)));
    assert_eq!(definition.outputs[0].item, Item::new(Elem::UInt));
}

#[test]
fn compile_with_a_mapping_equals_define() {
    let mapping = Some(InplaceMapping { pos_input: 1, pos_output: 0 });
    let compiled = compile(add, float(), float(), mapping).unwrap();
    let defined = define(KernelVariant::InplaceRhs, float(), float());
    assert_eq!(compiled.inputs, defined.inputs);
    assert_eq!(compiled.outputs, defined.outputs);
    assert_eq!(compiled.body, defined.body);
}

#[test]
fn compile_equals_assemble_on_the_expansion() {
    let (scope, operation) = traced(float());
    let assembled =
        assemble(scope, operation, Variable::AbsolutePos, float(), float(), None).unwrap();
    let compiled = compile(add, float(), float(), None).unwrap();
    assert_eq!(compiled.inputs, assembled.inputs);
    assert_eq!(compiled.outputs, assembled.outputs);
    assert_eq!(compiled.body, assembled.body);
}

#[test]
fn operation_is_expanded_in_an_empty_root_scope() {
    let mut seen = None;
    let built = compile(
        |scope: Scope, elem: Elem, position: Variable| {
            seen = Some((scope.clone(), elem, position));
            add(scope, elem, position)
        },
        Elem::Int(IntKind::I64),
        float(),
        None,
    );
    assert!(built.is_ok());
    assert_eq!(seen, Some((Scope::root(), Elem::Int(IntKind::I64), Variable::AbsolutePos)));
}

#[test]
fn operation_without_a_local_is_refused() {
    let built = compile(no_local, float(), float(), None);
    assert_eq!(built.err(), Some(BuildError::NoResultLocal));
    let built = KernelVariant::InplaceLhs.define(no_local, float(), float());
    assert_eq!(built.err(), Some(BuildError::NoResultLocal));
}

#[test]
fn operation_that_registers_an_instruction_itself_is_refused() {
    let twice = |scope: Scope, elem: Elem, position: Variable| {
        let (mut scope, operation) = add(scope, elem, position);
        scope.register(operation.clone());
        (scope, operation)
    };
    let built = KernelVariant::Plain.define(twice, float(), float());
    assert_eq!(built.err(), Some(BuildError::NotSingleInstruction));
}

#[test]
fn scope_without_a_local_is_refused() {
    let (scope, operation) = no_local(Scope::root(), float(), Variable::AbsolutePos);
    let built = assemble(scope, operation, Variable::AbsolutePos, float(), float(), None);
    assert_eq!(built.err(), Some(BuildError::NoResultLocal));
}

#[test]
fn scope_with_an_instruction_of_its_own_is_refused() {
    let (mut scope, operation) = traced(float());
    scope.register(operation.clone());
    let built = assemble(scope, operation, Variable::AbsolutePos, float(), float(), None);
    assert_eq!(built.err(), Some(BuildError::NotSingleInstruction));
}

#[test]
fn instruction_count_is_checked_before_the_local() {
    let (mut scope, operation) = no_local(Scope::root(), float(), Variable::AbsolutePos);
    scope.register(operation.clone());
    let built = assemble(scope, operation, Variable::AbsolutePos, float(), float(), None);
    assert_eq!(built.err(), Some(BuildError::NotSingleInstruction));
}

#[test]
fn output_is_written_at_the_position_that_is_given() {
    let (scope, operation) = traced(float());
    let built = assemble(scope, operation, Variable::UnitPos, float(), float(), None).unwrap();
    let item = Item::new(float());
    assert_eq!(
        writes(&built),
        vec![(
            Variable::Local { id: 2, item, depth: 0 },
            Variable::GlobalOutputArray { id: 0, item },
            Variable::UnitPos,
        )]
    );
}
