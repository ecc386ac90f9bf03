//! The intermediate representation of `cubecl`, as far as a kernel of a binary
//! operation is built from it. Nothing in this file is proved: the types are
//! opaque, and each function is believed to do what its contract says.

use vstd::prelude::*;
use cubecl::ir::{Elem, Item, KernelDefinition, Operation, Scope, Variable};
use cubecl::{InputInfo, KernelExpansion, KernelIntegrator, KernelSettings, OutputInfo};
use crate::kernel::{InplaceMapping, InputBinding, OutputBinding, Visibility};

verus! {

/// `cubecl::ir::Scope`: the instructions and variables of a kernel body.
#[verifier::external_type_specification]
#[verifier::external_body]
pub struct ExScope(Scope);

/// `cubecl::ir::Operation`: one instruction.
#[verifier::external_type_specification]
#[verifier::external_body]
pub struct ExOperation(Operation);

/// `cubecl::ir::Variable`: a variable of a kernel body.
#[verifier::external_type_specification]
#[verifier::external_body]
pub struct ExVariable(Variable);

/// `cubecl::ir::Elem`: an element kind.
#[verifier::external_type_specification]
#[verifier::external_body]
pub struct ExElem(Elem);

/// `cubecl::ir::KernelDefinition`: a kernel ready to be compiled for a device.
#[verifier::external_type_specification]
#[verifier::external_body]
pub struct ExKernelDefinition(KernelDefinition);

/// The scope that `Scope::register` leaves when `operation` is registered
/// into `scope`.
pub uninterp spec fn scope_with(scope: Scope, operation: Operation) -> Scope;

/// The number of instructions at the top level of `scope`.
pub uninterp spec fn scope_operation_count(scope: Scope) -> usize;

/// What `Scope::last_local_index` returns on `scope`: the local variable that
/// was created last, if there is one.
pub uninterp spec fn scope_last_local(scope: Scope) -> Option<Variable>;

/// What `Variable::index` returns on `variable`: its index, if it is of a kind
/// that has one.
pub uninterp spec fn variable_index(variable: Variable) -> Option<u16>;

/// What `KernelIntegrator::integrate` returns for the expansion made of
/// `scope`, `inputs` and `outputs` under the settings that hold `mapping`.
pub uninterp spec fn integrated(
    scope: Scope,
    inputs: Seq<InputBinding>,
    outputs: Seq<OutputBinding>,
    mapping: Option<InplaceMapping>,
) -> KernelDefinition;

/// Calls `Scope::root`, which makes a scope at the root of a kernel whose
/// lists are all empty. The contract claims that of the two lists that are
/// read here: the scope has no instruction and no local variable.
#[verifier::external_body]
pub(crate) fn root_scope() -> (scope: Scope)
    ensures
        scope_operation_count(scope) == 0,
        scope_last_local(scope) is None,
{
    Scope::root()
}

/// Gives `Variable::AbsolutePos`, the variable that holds the position of the
/// unit of work among all of a launch. The contract claims nothing.
#[verifier::external_body]
pub(crate) fn absolute_position() -> Variable {
    Variable::AbsolutePos
}

/// Calls `Scope::register`, which appends `operation` to the instructions of
/// `scope` and touches nothing else. The contract names the scope that
/// results and claims that it holds one instruction more and the same local
/// variables.
#[verifier::external_body]
pub(crate) fn register(scope: &mut Scope, operation: Operation)
    ensures
        *final(scope) == scope_with(*old(scope), operation),
        scope_operation_count(*final(scope)) == scope_operation_count(*old(scope)) + 1,
        scope_last_local(*final(scope)) == scope_last_local(*old(scope)),
{
    scope.register(operation)
}

/// Reads the length of the public field `operations` of `scope`. The contract
/// only names it.
#[verifier::external_body]
pub(crate) fn operation_count(scope: &Scope) -> (count: usize)
    ensures
        count == scope_operation_count(*scope),
{
    scope.operations.len()
}

/// Calls `Scope::last_local_index` and copies the variable out of the
/// reference. The contract only names the result.
#[verifier::external_body]
pub(crate) fn last_local(scope: &Scope) -> (local: Option<Variable>)
    ensures
        local == scope_last_local(*scope),
{
    scope.last_local_index().copied()
}

/// Calls `Variable::index`. The contract only names the result.
#[verifier::external_body]
pub(crate) fn index_of(variable: &Variable) -> (index: Option<u16>)
    ensures
        index == variable_index(*variable),
{
    variable.index()
}

/// Calls `KernelIntegrator::new` and `KernelIntegrator::integrate` on the
/// expansion made of `scope`, of one array input for each of `inputs` and of
/// one written array output for each of `outputs`, with the default
/// `KernelSettings` whose in-place mappings are those of `mapping`. Each
/// element kind becomes an item by `Item::new`. The contract only names the
/// definition that results.
#[verifier::external_body]
pub(crate) fn integrate(
    scope: Scope,
    inputs: &Vec<InputBinding>,
    outputs: &Vec<OutputBinding>,
    mapping: Option<InplaceMapping>,
) -> (definition: KernelDefinition)
    ensures
        definition == integrated(scope, inputs@, outputs@, mapping),
{
    let inputs = inputs.iter().map(|i| InputInfo::Array { item: Item::new(i.elem), visibility: match i.visibility {
        Visibility::Read => cubecl::ir::Visibility::Read,
        Visibility::ReadWrite => cubecl::ir::Visibility::ReadWrite,
    } }).collect();
    let outputs = outputs.iter().map(|o| OutputInfo::ArrayWrite { item: Item::new(o.elem), local: o.local, position: o.position }).collect();
    let mappings = mapping.iter().map(|m| cubecl::InplaceMapping::new(m.pos_input, m.pos_output)).collect();
    KernelIntegrator::new(KernelExpansion { inputs, outputs, scope }).integrate(KernelSettings::default().inplace(mappings))
}

} // verus!
