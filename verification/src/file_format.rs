//! The in-memory representation of a compiled module: index pools of
//! handles, signatures and definitions, and the recursive type expressions
//! (signature tokens) that reference them.
//!
//! All entities are created together when a module is constructed and are
//! never mutated afterward; every index stored in a handle or definition is
//! a position into one specifically named pool of the same module.

use vstd::prelude::*;
use crate::ability::AbilitySet;
use crate::identity::{AccountAddress, Identifier, ModuleIdView};

verus! {

/// Index into the module-handle pool.
#[derive(Clone, Copy, PartialEq, Eq, Structural, Debug)]
pub struct ModuleHandleIndex(pub u16);

/// Index into the struct-handle pool.
#[derive(Clone, Copy, PartialEq, Eq, Structural, Debug)]
pub struct StructHandleIndex(pub u16);

/// Index into the function-handle pool.
#[derive(Clone, Copy, PartialEq, Eq, Structural, Debug)]
pub struct FunctionHandleIndex(pub u16);

/// Index into the field-handle pool.
#[derive(Clone, Copy, PartialEq, Eq, Structural, Debug)]
pub struct FieldHandleIndex(pub u16);

/// Index into the signature pool.
#[derive(Clone, Copy, PartialEq, Eq, Structural, Debug)]
pub struct SignatureIndex(pub u16);

/// Index into the identifier pool.
#[derive(Clone, Copy, PartialEq, Eq, Structural, Debug)]
pub struct IdentifierIndex(pub u16);

/// Index into the address-identifier pool.
#[derive(Clone, Copy, PartialEq, Eq, Structural, Debug)]
pub struct AddressIdentifierIndex(pub u16);

/// Index into the constant pool.
#[derive(Clone, Copy, PartialEq, Eq, Structural, Debug)]
pub struct ConstantPoolIndex(pub u16);

/// Index into the struct-definition pool.
#[derive(Clone, Copy, PartialEq, Eq, Structural, Debug)]
pub struct StructDefinitionIndex(pub u16);

/// Index into the function-definition pool.
#[derive(Clone, Copy, PartialEq, Eq, Structural, Debug)]
pub struct FunctionDefinitionIndex(pub u16);

/// Index into the struct-instantiation pool.
#[derive(Clone, Copy, PartialEq, Eq, Structural, Debug)]
pub struct StructDefInstantiationIndex(pub u16);

/// Index into the function-instantiation pool.
#[derive(Clone, Copy, PartialEq, Eq, Structural, Debug)]
pub struct FunctionInstantiationIndex(pub u16);

/// Index into the field-instantiation pool.
#[derive(Clone, Copy, PartialEq, Eq, Structural, Debug)]
pub struct FieldInstantiationIndex(pub u16);

/// Position of a type parameter within a declared generic parameter list.
pub type TypeParameterIndex = u16;

/// Number of a member (a field offset) within its owner.
pub type MemberCount = u16;

/// A reference to a module: its address and its name, each by position in
/// the corresponding pool.
#[derive(Clone, Copy, PartialEq, Eq, Structural, Debug)]
pub struct ModuleHandle {
    pub address: AddressIdentifierIndex,
    pub name: IdentifierIndex,
}

/// One declared type parameter of a struct: the ability constraints it must
/// satisfy, and whether it is phantom (never stored in the struct's
/// representation, hence imposing no constraint on the struct's abilities).
#[derive(Clone, Copy, PartialEq, Eq, Structural, Debug)]
pub struct StructTypeParameter {
    pub constraints: AbilitySet,
    pub is_phantom: bool,
}

/// A struct's identity, generic arity and capability contract, without its
/// field layout.
#[derive(Debug)]
pub struct StructHandle {
    pub module: ModuleHandleIndex,
    pub name: IdentifierIndex,
    pub abilities: AbilitySet,
    pub type_parameters: Vec<StructTypeParameter>,
}

/// A function's external type signature.
#[derive(Debug)]
pub struct FunctionHandle {
    pub module: ModuleHandleIndex,
    pub name: IdentifierIndex,
    pub parameters: SignatureIndex,
    pub return_: SignatureIndex,
    pub type_parameters: Vec<AbilitySet>,
}

/// One field's location: the struct definition owning it and the field's
/// offset within that definition.
#[derive(Clone, Copy, PartialEq, Eq, Structural, Debug)]
pub struct FieldHandle {
    pub owner: StructDefinitionIndex,
    pub field: MemberCount,
}

/// A generic struct definition paired with the signature holding its
/// concrete type arguments.
#[derive(Clone, Copy, PartialEq, Eq, Structural, Debug)]
pub struct StructDefInstantiation {
    pub def: StructDefinitionIndex,
    pub type_parameters: SignatureIndex,
}

/// A generic function handle paired with the signature holding its concrete
/// type arguments.
#[derive(Clone, Copy, PartialEq, Eq, Structural, Debug)]
pub struct FunctionInstantiation {
    pub handle: FunctionHandleIndex,
    pub type_parameters: SignatureIndex,
}

/// A generic field handle paired with the signature holding its concrete
/// type arguments.
#[derive(Clone, Copy, PartialEq, Eq, Structural, Debug)]
pub struct FieldInstantiation {
    pub handle: FieldHandleIndex,
    pub type_parameters: SignatureIndex,
}

/// A recursive type expression.
#[derive(PartialEq, Eq, Debug)]
pub enum SignatureToken {
    Bool,
    U8,
    U16,
    U32,
    U64,
    U128,
    U256,
    Address,
    Signer,
    Vector(Box<SignatureToken>),
    Reference(Box<SignatureToken>),
    MutableReference(Box<SignatureToken>),
    TypeParameter(TypeParameterIndex),
    Struct(StructHandleIndex),
    StructInstantiation(StructHandleIndex, Vec<SignatureToken>),
}

/// An ordered list of types: the arguments, returns or locals of a function
/// or field context.
#[derive(Debug)]
pub struct Signature(pub Vec<SignatureToken>);

/// The type of one declared struct field.
#[derive(Debug)]
pub struct TypeSignature(pub SignatureToken);

/// One declared field: its name and its type.
#[derive(Debug)]
pub struct FieldDefinition {
    pub name: IdentifierIndex,
    pub signature: TypeSignature,
}

/// The field layout of a struct definition: either opaque native storage or
/// an ordered list of declared fields.
#[derive(Debug)]
pub enum StructFieldInformation {
    Native,
    Declared(Vec<FieldDefinition>),
}

/// A struct definition: the handle it realizes, bound to its field layout.
#[derive(Debug)]
pub struct StructDefinition {
    pub struct_handle: StructHandleIndex,
    pub field_information: StructFieldInformation,
}

/// The body of a function definition: the signature index of its declared
/// locals.
#[derive(Clone, Copy, PartialEq, Eq, Structural, Debug)]
pub struct CodeUnit {
    pub locals: SignatureIndex,
}

/// A function definition: the handle it realizes, bound to its body if it
/// has one (native functions have none).
#[derive(Clone, Copy, PartialEq, Eq, Structural, Debug)]
pub struct FunctionDefinition {
    pub function: FunctionHandleIndex,
    pub code: Option<CodeUnit>,
}

/// A compile-time literal value: its type and its serialized bytes, opaque
/// to this layer beyond indexed access.
#[derive(Debug)]
pub struct Constant {
    pub type_: SignatureToken,
    pub data: Vec<u8>,
}

/// A compiled module: a version number, a distinguished self-handle index,
/// and the index pools that every handle and definition refer into.
#[derive(Debug)]
pub struct CompiledModule {
    pub version: u32,
    pub self_module_handle_idx: ModuleHandleIndex,
    pub module_handles: Vec<ModuleHandle>,
    pub struct_handles: Vec<StructHandle>,
    pub function_handles: Vec<FunctionHandle>,
    pub field_handles: Vec<FieldHandle>,
    pub friend_decls: Vec<ModuleHandle>,
    pub struct_def_instantiations: Vec<StructDefInstantiation>,
    pub function_instantiations: Vec<FunctionInstantiation>,
    pub field_instantiations: Vec<FieldInstantiation>,
    pub signatures: Vec<Signature>,
    pub identifiers: Vec<Identifier>,
    pub address_identifiers: Vec<AccountAddress>,
    pub constant_pool: Vec<Constant>,
    pub struct_defs: Vec<StructDefinition>,
    pub function_defs: Vec<FunctionDefinition>,
}

/// Whether every struct-handle index mentioned anywhere inside a type
/// expression is a position within a struct-handle pool of the given
/// length.
pub open spec fn token_handles_wf(t: SignatureToken, n_struct_handles: int) -> bool
    decreases t,
{
    match t {
        SignatureToken::Vector(elem) => token_handles_wf(*elem, n_struct_handles),
        SignatureToken::Reference(elem) => token_handles_wf(*elem, n_struct_handles),
        SignatureToken::MutableReference(elem) => token_handles_wf(*elem, n_struct_handles),
        SignatureToken::Struct(idx) => idx.0 < n_struct_handles,
        SignatureToken::StructInstantiation(idx, type_args) => idx.0 < n_struct_handles
            && tokens_handles_wf(type_args@, n_struct_handles),
        _ => true,
    }
}

/// `token_handles_wf`, over every element of a sequence of type
/// expressions.
pub open spec fn tokens_handles_wf(s: Seq<SignatureToken>, n_struct_handles: int) -> bool
    decreases s,
{
    if s.len() == 0 {
        true
    } else {
        token_handles_wf(s.last(), n_struct_handles) && tokens_handles_wf(
            s.drop_last(),
            n_struct_handles,
        )
    }
}

impl CompiledModule {
    /// Whether a module handle's address and name indices lie within this
    /// module's pools.
    pub open spec fn module_handle_wf(self, h: ModuleHandle) -> bool {
        &&& h.address.0 < self.address_identifiers@.len()
        &&& h.name.0 < self.identifiers@.len()
    }

    /// Whether a struct handle's indices lie within this module's pools.
    pub open spec fn struct_handle_wf(self, h: StructHandle) -> bool {
        &&& h.module.0 < self.module_handles@.len()
        &&& h.name.0 < self.identifiers@.len()
    }

    /// Whether a function handle's indices lie within this module's pools.
    pub open spec fn function_handle_wf(self, h: FunctionHandle) -> bool {
        &&& h.module.0 < self.module_handles@.len()
        &&& h.name.0 < self.identifiers@.len()
        &&& h.parameters.0 < self.signatures@.len()
        &&& h.return_.0 < self.signatures@.len()
    }

    /// Whether a function definition's indices lie within this module's
    /// pools.
    pub open spec fn function_def_wf(self, d: FunctionDefinition) -> bool {
        &&& d.function.0 < self.function_handles@.len()
        &&& match d.code {
            Some(code) => code.locals.0 < self.signatures@.len(),
            None => true,
        }
    }

    /// Whether a struct definition's indices lie within this module's
    /// pools, its declared field types included.
    pub open spec fn struct_def_wf(self, d: StructDefinition) -> bool {
        &&& d.struct_handle.0 < self.struct_handles@.len()
        &&& match d.field_information {
            StructFieldInformation::Native => true,
            StructFieldInformation::Declared(fields) => forall|i: int|
                0 <= i < fields@.len() ==> {
                    &&& (#[trigger] fields@[i]).name.0 < self.identifiers@.len()
                    &&& token_handles_wf(fields@[i].signature.0, self.struct_handles@.len() as int)
                },
        }
    }

    /// Well-formedness of the whole module: every index stored in a handle
    /// or definition is a position within the pool it indexes into.  The
    /// accessor layer assumes this of every module it is handed; the
    /// excluded structural verification stage establishes it.
    pub open spec fn wf(self) -> bool {
        &&& self.self_module_handle_idx.0 < self.module_handles@.len()
        &&& forall|i: int| 0 <= i < self.module_handles@.len() ==> self.module_handle_wf(
            #[trigger] self.module_handles@[i],
        )
        &&& forall|i: int| 0 <= i < self.friend_decls@.len() ==> self.module_handle_wf(
            #[trigger] self.friend_decls@[i],
        )
        &&& forall|i: int| 0 <= i < self.struct_handles@.len() ==> self.struct_handle_wf(
            #[trigger] self.struct_handles@[i],
        )
        &&& forall|i: int| 0 <= i < self.function_handles@.len() ==> self.function_handle_wf(
            #[trigger] self.function_handles@[i],
        )
        &&& forall|i: int| 0 <= i < self.field_handles@.len() ==> (
        #[trigger] self.field_handles@[i]).owner.0 < self.struct_defs@.len()
        &&& forall|i: int| 0 <= i < self.struct_def_instantiations@.len() ==> {
            &&& (#[trigger] self.struct_def_instantiations@[i]).def.0 < self.struct_defs@.len()
            &&& self.struct_def_instantiations@[i].type_parameters.0 < self.signatures@.len()
        }
        &&& forall|i: int| 0 <= i < self.function_instantiations@.len() ==> {
            &&& (#[trigger] self.function_instantiations@[i]).handle.0
                < self.function_handles@.len()
            &&& self.function_instantiations@[i].type_parameters.0 < self.signatures@.len()
        }
        &&& forall|i: int| 0 <= i < self.field_instantiations@.len() ==> {
            &&& (#[trigger] self.field_instantiations@[i]).handle.0 < self.field_handles@.len()
            &&& self.field_instantiations@[i].type_parameters.0 < self.signatures@.len()
        }
        &&& forall|i: int| 0 <= i < self.signatures@.len() ==> tokens_handles_wf(
            (#[trigger] self.signatures@[i]).0@,
            self.struct_handles@.len() as int,
        )
        &&& forall|i: int| 0 <= i < self.constant_pool@.len() ==> token_handles_wf(
            (#[trigger] self.constant_pool@[i]).type_,
            self.struct_handles@.len() as int,
        )
        &&& forall|i: int| 0 <= i < self.struct_defs@.len() ==> self.struct_def_wf(
            #[trigger] self.struct_defs@[i],
        )
        &&& forall|i: int| 0 <= i < self.function_defs@.len() ==> self.function_def_wf(
            #[trigger] self.function_defs@[i],
        )
    }

    /// The module's own handle.
    pub open spec fn spec_self_handle(self) -> ModuleHandle {
        self.module_handles@[self.self_module_handle_idx.0 as int]
    }

    /// The module id any module handle resolves to: the referenced address
    /// bytes paired with the referenced name.
    pub open spec fn spec_module_id_for_handle(self, h: ModuleHandle) -> ModuleIdView {
        ModuleIdView {
            address: self.address_identifiers@[h.address.0 as int]@,
            name: self.identifiers@[h.name.0 as int]@,
        }
    }

    /// The module's own name.
    pub open spec fn spec_name(self) -> Seq<char> {
        self.identifiers@[self.spec_self_handle().name.0 as int]@
    }

    /// The module's own address.
    pub open spec fn spec_address(self) -> Seq<u8> {
        self.address_identifiers@[self.spec_self_handle().address.0 as int]@
    }

    /// The module's own id.
    pub open spec fn spec_self_id(self) -> ModuleIdView {
        self.spec_module_id_for_handle(self.spec_self_handle())
    }

    /// The name of the struct a struct definition defines, resolved through
    /// its handle.
    pub open spec fn spec_struct_def_name(self, d: StructDefinition) -> Seq<char> {
        self.identifiers@[self.struct_handles@[d.struct_handle.0 as int].name.0 as int]@
    }

    /// The name of the struct defined by the indexed struct definition.
    pub open spec fn spec_struct_name(self, idx: StructDefinitionIndex) -> Seq<char> {
        self.spec_struct_def_name(self.struct_defs@[idx.0 as int])
    }

    /// The handles of this module's handle pool that differ from its own
    /// self-handle, in pool order: the handles of its immediate
    /// dependencies.
    pub open spec fn spec_dependency_handles(self) -> Seq<ModuleHandle> {
        spec_dependency_handles(self.module_handles@, self.spec_self_handle())
    }
}

/// The handles of a module-handle pool that differ from the module's own
/// self-handle, in pool order.  Handles are compared by field equality, not
/// by the module id they resolve to: two distinct entries resolving to the
/// same id are both kept.
pub open spec fn spec_dependency_handles(
    handles: Seq<ModuleHandle>,
    self_handle: ModuleHandle,
) -> Seq<ModuleHandle>
    decreases handles,
{
    if handles.len() == 0 {
        Seq::empty()
    } else {
        let rest = spec_dependency_handles(handles.drop_last(), self_handle);
        if handles.last() == self_handle {
            rest
        } else {
            rest.push(handles.last())
        }
    }
}

/// The immediate-dependency handles never include the module's own
/// self-handle: every entry equal to it is excluded, by field equality.
pub proof fn lemma_dependency_handles_exclude_self(
    handles: Seq<ModuleHandle>,
    self_handle: ModuleHandle,
)
    ensures
        forall|k: int|
            0 <= k < spec_dependency_handles(handles, self_handle).len()
                ==> #[trigger] spec_dependency_handles(handles, self_handle)[k] != self_handle,
    decreases handles,
{
    if handles.len() > 0 {
        lemma_dependency_handles_exclude_self(handles.drop_last(), self_handle);
        let rest = spec_dependency_handles(handles.drop_last(), self_handle);
        if handles.last() != self_handle {
            assert forall|k: int|
                0 <= k < rest.push(handles.last()).len() implies #[trigger] rest.push(
                handles.last(),
            )[k] != self_handle by {
                if k < rest.len() {
                    assert(rest.push(handles.last())[k] == rest[k]);
                } else {
                    assert(rest.push(handles.last())[k] == handles.last());
                }
            }
        }
    }
}

/// The immediate-dependency handles preserve the handle pool's relative
/// order: they are exactly the order-preserving filter of the pool by
/// difference from the self-handle.
pub proof fn lemma_dependency_handles_preserve_order(
    handles: Seq<ModuleHandle>,
    self_handle: ModuleHandle,
)
    ensures
        spec_dependency_handles(handles, self_handle) == handles.filter(
            |h: ModuleHandle| h != self_handle,
        ),
    decreases handles,
{
    reveal_with_fuel(Seq::filter, 2);
    if handles.len() > 0 {
        lemma_dependency_handles_preserve_order(handles.drop_last(), self_handle);
    }
}

} // verus!
