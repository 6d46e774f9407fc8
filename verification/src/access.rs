//! The module accessor: a capability-set interface over anything that can
//! vend a compiled module, exposing bounds-validated lookup into every
//! index pool, derived identity queries, definition search, and the
//! recursive ability computation for type expressions.

use vstd::prelude::*;
use crate::ability::AbilitySet;
use crate::errors::{PartialVMError, PartialVMResult, arity_mismatch_error};
use crate::file_format::{
    spec_dependency_handles, AddressIdentifierIndex, CompiledModule, Constant, ConstantPoolIndex,
    FieldHandle, FieldHandleIndex, FieldInstantiation, FieldInstantiationIndex,
    FunctionDefinition, FunctionDefinitionIndex, FunctionHandle, FunctionHandleIndex,
    FunctionInstantiation, FunctionInstantiationIndex, IdentifierIndex, ModuleHandle,
    ModuleHandleIndex, Signature, SignatureIndex, SignatureToken, StructDefInstantiation,
    StructDefInstantiationIndex, StructDefinition, StructDefinitionIndex, StructHandle,
    StructHandleIndex, StructTypeParameter,
};
use crate::identity::{AccountAddress, Identifier, ModuleId};

verus! {

/// Accessors for a compiled module.
///
/// This is a trait so that the identical accessor logic serves every
/// wrapper that owns or can vend a `CompiledModule`: only `as_module` (and
/// its specification `module_view`) is supplied per wrapper, everything
/// else is derived.  The interface is required to be shareable across
/// threads, since many modules may be examined in parallel.
pub trait ModuleAccess: Sync {
    /// The module this accessor presents, as a specification-level value.
    spec fn module_view(&self) -> CompiledModule;

    /// Returns the `CompiledModule` that will be used for accesses.
    fn as_module(&self) -> (m: &CompiledModule)
        ensures
            *m == self.module_view(),
    ;

    /// The index of the module's own handle.
    fn self_handle_idx(&self) -> (idx: ModuleHandleIndex)
        ensures
            idx == self.module_view().self_module_handle_idx,
    {
        self.as_module().self_module_handle_idx
    }

    /// Returns the `ModuleHandle` for `self`.
    fn self_handle(&self) -> (h: &ModuleHandle)
        requires
            self.module_view().wf(),
        ensures
            *h == self.module_view().spec_self_handle(),
            self.module_view().module_handle_wf(*h),
    {
        self.module_handle_at(self.self_handle_idx())
    }

    fn module_handle_at(&self, idx: ModuleHandleIndex) -> (h: &ModuleHandle)
        requires
            self.module_view().wf(),
            idx.0 < self.module_view().module_handles@.len(),
        ensures
            *h == self.module_view().module_handles@[idx.0 as int],
            self.module_view().module_handle_wf(*h),
    {
        let m = self.as_module();
        &m.module_handles[idx.0 as usize]
    }

    fn struct_handle_at(&self, idx: StructHandleIndex) -> (h: &StructHandle)
        requires
            self.module_view().wf(),
            idx.0 < self.module_view().struct_handles@.len(),
        ensures
            *h == self.module_view().struct_handles@[idx.0 as int],
            self.module_view().struct_handle_wf(*h),
    {
        let m = self.as_module();
        &m.struct_handles[idx.0 as usize]
    }

    fn function_handle_at(&self, idx: FunctionHandleIndex) -> (h: &FunctionHandle)
        requires
            self.module_view().wf(),
            idx.0 < self.module_view().function_handles@.len(),
        ensures
            *h == self.module_view().function_handles@[idx.0 as int],
            self.module_view().function_handle_wf(*h),
    {
        let m = self.as_module();
        &m.function_handles[idx.0 as usize]
    }

    fn field_handle_at(&self, idx: FieldHandleIndex) -> (h: &FieldHandle)
        requires
            self.module_view().wf(),
            idx.0 < self.module_view().field_handles@.len(),
        ensures
            *h == self.module_view().field_handles@[idx.0 as int],
            h.owner.0 < self.module_view().struct_defs@.len(),
    {
        let m = self.as_module();
        &m.field_handles[idx.0 as usize]
    }

    fn struct_instantiation_at(&self, idx: StructDefInstantiationIndex) -> (r:
        &StructDefInstantiation)
        requires
            idx.0 < self.module_view().struct_def_instantiations@.len(),
        ensures
            *r == self.module_view().struct_def_instantiations@[idx.0 as int],
    {
        let m = self.as_module();
        &m.struct_def_instantiations[idx.0 as usize]
    }

    fn function_instantiation_at(&self, idx: FunctionInstantiationIndex) -> (r:
        &FunctionInstantiation)
        requires
            idx.0 < self.module_view().function_instantiations@.len(),
        ensures
            *r == self.module_view().function_instantiations@[idx.0 as int],
    {
        let m = self.as_module();
        &m.function_instantiations[idx.0 as usize]
    }

    fn field_instantiation_at(&self, idx: FieldInstantiationIndex) -> (r: &FieldInstantiation)
        requires
            idx.0 < self.module_view().field_instantiations@.len(),
        ensures
            *r == self.module_view().field_instantiations@[idx.0 as int],
    {
        let m = self.as_module();
        &m.field_instantiations[idx.0 as usize]
    }

    fn signature_at(&self, idx: SignatureIndex) -> (r: &Signature)
        requires
            idx.0 < self.module_view().signatures@.len(),
        ensures
            *r == self.module_view().signatures@[idx.0 as int],
    {
        let m = self.as_module();
        &m.signatures[idx.0 as usize]
    }

    fn identifier_at(&self, idx: IdentifierIndex) -> (r: &Identifier)
        requires
            idx.0 < self.module_view().identifiers@.len(),
        ensures
            *r == self.module_view().identifiers@[idx.0 as int],
    {
        let m = self.as_module();
        &m.identifiers[idx.0 as usize]
    }

    fn address_identifier_at(&self, idx: AddressIdentifierIndex) -> (r: &AccountAddress)
        requires
            idx.0 < self.module_view().address_identifiers@.len(),
        ensures
            *r == self.module_view().address_identifiers@[idx.0 as int],
    {
        let m = self.as_module();
        &m.address_identifiers[idx.0 as usize]
    }

    fn constant_at(&self, idx: ConstantPoolIndex) -> (r: &Constant)
        requires
            idx.0 < self.module_view().constant_pool@.len(),
        ensures
            *r == self.module_view().constant_pool@[idx.0 as int],
    {
        let m = self.as_module();
        &m.constant_pool[idx.0 as usize]
    }

    fn struct_def_at(&self, idx: StructDefinitionIndex) -> (r: &StructDefinition)
        requires
            idx.0 < self.module_view().struct_defs@.len(),
        ensures
            *r == self.module_view().struct_defs@[idx.0 as int],
    {
        let m = self.as_module();
        &m.struct_defs[idx.0 as usize]
    }

    fn function_def_at(&self, idx: FunctionDefinitionIndex) -> (r: &FunctionDefinition)
        requires
            self.module_view().wf(),
            idx.0 < self.module_view().function_defs@.len(),
        ensures
            *r == self.module_view().function_defs@[idx.0 as int],
            self.module_view().function_def_wf(*r),
    {
        let m = self.as_module();
        &m.function_defs[idx.0 as usize]
    }

    fn module_handles(&self) -> (r: &[ModuleHandle])
        ensures
            r@ == self.module_view().module_handles@,
    {
        self.as_module().module_handles.as_slice()
    }

    fn struct_handles(&self) -> (r: &[StructHandle])
        ensures
            r@ == self.module_view().struct_handles@,
    {
        self.as_module().struct_handles.as_slice()
    }

    fn function_handles(&self) -> (r: &[FunctionHandle])
        ensures
            r@ == self.module_view().function_handles@,
    {
        self.as_module().function_handles.as_slice()
    }

    fn field_handles(&self) -> (r: &[FieldHandle])
        ensures
            r@ == self.module_view().field_handles@,
    {
        self.as_module().field_handles.as_slice()
    }

    fn struct_instantiations(&self) -> (r: &[StructDefInstantiation])
        ensures
            r@ == self.module_view().struct_def_instantiations@,
    {
        self.as_module().struct_def_instantiations.as_slice()
    }

    fn function_instantiations(&self) -> (r: &[FunctionInstantiation])
        ensures
            r@ == self.module_view().function_instantiations@,
    {
        self.as_module().function_instantiations.as_slice()
    }

    fn field_instantiations(&self) -> (r: &[FieldInstantiation])
        ensures
            r@ == self.module_view().field_instantiations@,
    {
        self.as_module().field_instantiations.as_slice()
    }

    fn signatures(&self) -> (r: &[Signature])
        ensures
            r@ == self.module_view().signatures@,
    {
        self.as_module().signatures.as_slice()
    }

    fn constant_pool(&self) -> (r: &[Constant])
        ensures
            r@ == self.module_view().constant_pool@,
    {
        self.as_module().constant_pool.as_slice()
    }

    fn identifiers(&self) -> (r: &[Identifier])
        ensures
            r@ == self.module_view().identifiers@,
    {
        self.as_module().identifiers.as_slice()
    }

    fn address_identifiers(&self) -> (r: &[AccountAddress])
        ensures
            r@ == self.module_view().address_identifiers@,
    {
        self.as_module().address_identifiers.as_slice()
    }

    fn struct_defs(&self) -> (r: &[StructDefinition])
        ensures
            r@ == self.module_view().struct_defs@,
    {
        self.as_module().struct_defs.as_slice()
    }

    fn function_defs(&self) -> (r: &[FunctionDefinition])
        ensures
            r@ == self.module_view().function_defs@,
    {
        self.as_module().function_defs.as_slice()
    }

    fn friend_decls(&self) -> (r: &[ModuleHandle])
        ensures
            r@ == self.module_view().friend_decls@,
    {
        self.as_module().friend_decls.as_slice()
    }

    fn version(&self) -> (v: u32)
        ensures
            v == self.module_view().version,
    {
        self.as_module().version
    }

    /// Returns the name of the module.
    fn name(&self) -> (r: &Identifier)
        requires
            self.module_view().wf(),
        ensures
            r@ == self.module_view().spec_name(),
    {
        self.identifier_at(self.self_handle().name)
    }

    /// Returns the address of the module.
    fn address(&self) -> (r: &AccountAddress)
        requires
            self.module_view().wf(),
        ensures
            r@ == self.module_view().spec_address(),
    {
        self.address_identifier_at(self.self_handle().address)
    }

    /// Resolves a struct definition's index straight through to the name of
    /// the struct it defines.
    fn struct_name(&self, idx: StructDefinitionIndex) -> (r: &Identifier)
        requires
            self.module_view().wf(),
            idx.0 < self.module_view().struct_defs@.len(),
        ensures
            r@ == self.module_view().spec_struct_name(idx),
    {
        let struct_def = self.struct_def_at(idx);
        let handle = self.struct_handle_at(struct_def.struct_handle);
        self.identifier_at(handle.name)
    }

    /// Projects any module handle to the module id it resolves to.
    fn module_id_for_handle(&self, handle: &ModuleHandle) -> (r: ModuleId)
        requires
            self.module_view().module_handle_wf(*handle),
        ensures
            r@ == self.module_view().spec_module_id_for_handle(*handle),
    {
        ModuleId::new(
            *self.address_identifier_at(handle.address),
            self.identifier_at(handle.name).clone(),
        )
    }

    /// The module's own id: its address paired with its name.
    fn self_id(&self) -> (r: ModuleId)
        requires
            self.module_view().wf(),
        ensures
            r@ == self.module_view().spec_self_id(),
    {
        let handle = *self.self_handle();
        self.module_id_for_handle(&handle)
    }

    /// The module ids of every module handle in the pool other than the
    /// module's own self-handle, in pool order.  Handles are compared by
    /// field equality: two distinct entries resolving to the same id are
    /// both kept, and an entry equal to the self-handle is excluded even if
    /// it is not the distinguished one.
    fn immediate_dependencies(&self) -> (r: Vec<ModuleId>)
        requires
            self.module_view().wf(),
        ensures
            r@.len() == self.module_view().spec_dependency_handles().len(),
            forall|k: int|
                0 <= k < r@.len() ==> r@[k]@ == self.module_view().spec_module_id_for_handle(
                    self.module_view().spec_dependency_handles()[k],
                ),
    {
        let self_handle = *self.self_handle();
        let m = self.as_module();
        let n = m.module_handles.len();
        let mut deps: Vec<ModuleId> = Vec::new();
        let mut i: usize = 0;
        while i < n
            invariant
                self.module_view().wf(),
                *m == self.module_view(),
                self_handle == self.module_view().spec_self_handle(),
                n == self.module_view().module_handles@.len(),
                0 <= i <= n,
                deps@.len() == spec_dependency_handles(
                    self.module_view().module_handles@.take(i as int),
                    self_handle,
                ).len(),
                forall|k: int|
                    0 <= k < deps@.len() ==> deps@[k]@ == self.module_view()
                        .spec_module_id_for_handle(
                        spec_dependency_handles(
                            self.module_view().module_handles@.take(i as int),
                            self_handle,
                        )[k],
                    ),
            decreases n - i,
        {
            let handle = &m.module_handles[i];
            let ghost prefix = self.module_view().module_handles@.take(i as int);
            let ghost longer = self.module_view().module_handles@.take(i + 1 as int);
            proof {
                assert(longer.drop_last() =~= prefix);
                assert(longer.last() == self.module_view().module_handles@[i as int]);
            }
            if *handle != self_handle {
                let id = self.module_id_for_handle(handle);
                deps.push(id);
                proof {
                    assert(spec_dependency_handles(longer, self_handle) == spec_dependency_handles(
                        prefix,
                        self_handle,
                    ).push(longer.last()));
                }
            } else {
                proof {
                    assert(spec_dependency_handles(longer, self_handle) == spec_dependency_handles(
                        prefix,
                        self_handle,
                    ));
                }
            }
            i = i + 1;
        }
        proof {
            assert(self.module_view().module_handles@.take(n as int) =~= self.module_view()
                .module_handles@);
        }
        deps
    }

    /// The module ids of every declared friend module, in declaration
    /// order.
    fn immediate_friends(&self) -> (r: Vec<ModuleId>)
        requires
            self.module_view().wf(),
        ensures
            r@.len() == self.module_view().friend_decls@.len(),
            forall|k: int|
                0 <= k < r@.len() ==> r@[k]@ == self.module_view().spec_module_id_for_handle(
                    self.module_view().friend_decls@[k],
                ),
    {
        let m = self.as_module();
        let n = m.friend_decls.len();
        let mut friends: Vec<ModuleId> = Vec::new();
        let mut i: usize = 0;
        while i < n
            invariant
                self.module_view().wf(),
                *m == self.module_view(),
                n == self.module_view().friend_decls@.len(),
                0 <= i <= n,
                friends@.len() == i,
                forall|k: int|
                    0 <= k < friends@.len() ==> friends@[k]@ == self.module_view()
                        .spec_module_id_for_handle(self.module_view().friend_decls@[k]),
            decreases n - i,
        {
            let handle = &m.friend_decls[i];
            let id = self.module_id_for_handle(handle);
            friends.push(id);
            i = i + 1;
        }
        friends
    }

    /// The first struct definition whose handle index equals the given one,
    /// or none when no definition realizes that handle.
    fn find_struct_def(&self, idx: StructHandleIndex) -> (r: Option<&StructDefinition>)
        ensures
            r is Some <==> exists|k: int|
                0 <= k < self.module_view().struct_defs@.len() && (#[trigger] self.module_view()
                    .struct_defs@[k]).struct_handle == idx,
            r matches Some(d) ==> exists|k: int|
                {
                    &&& 0 <= k < self.module_view().struct_defs@.len()
                    &&& (#[trigger] self.module_view().struct_defs@[k]).struct_handle == idx
                    &&& *d == self.module_view().struct_defs@[k]
                    &&& forall|j: int|
                        0 <= j < k ==> (#[trigger] self.module_view().struct_defs@[j]).struct_handle
                            != idx
                },
    {
        let m = self.as_module();
        let n = m.struct_defs.len();
        let mut i: usize = 0;
        while i < n
            invariant
                *m == self.module_view(),
                n == self.module_view().struct_defs@.len(),
                0 <= i <= n,
                forall|j: int|
                    0 <= j < i ==> (#[trigger] self.module_view().struct_defs@[j]).struct_handle
                        != idx,
            decreases n - i,
        {
            let d = &m.struct_defs[i];
            if d.struct_handle == idx {
                return Some(d);
            }
            i = i + 1;
        }
        None
    }

    /// The first struct definition whose resolved struct name equals the
    /// given identifier, or none.  A linear scan: no index is maintained.
    fn find_struct_def_by_name(&self, name: &Identifier) -> (r: Option<&StructDefinition>)
        requires
            self.module_view().wf(),
        ensures
            r is Some <==> exists|k: int|
                0 <= k < self.module_view().struct_defs@.len() && self.module_view()
                    .spec_struct_def_name(#[trigger] self.module_view().struct_defs@[k]) == name@,
            r matches Some(d) ==> exists|k: int|
                {
                    &&& 0 <= k < self.module_view().struct_defs@.len()
                    &&& self.module_view().spec_struct_def_name(
                        #[trigger] self.module_view().struct_defs@[k],
                    ) == name@
                    &&& *d == self.module_view().struct_defs@[k]
                    &&& forall|j: int|
                        0 <= j < k ==> self.module_view().spec_struct_def_name(
                            #[trigger] self.module_view().struct_defs@[j],
                        ) != name@
                },
    {
        let m = self.as_module();
        let n = m.struct_defs.len();
        let mut i: usize = 0;
        while i < n
            invariant
                self.module_view().wf(),
                *m == self.module_view(),
                n == self.module_view().struct_defs@.len(),
                0 <= i <= n,
                forall|j: int|
                    0 <= j < i ==> self.module_view().spec_struct_def_name(
                        #[trigger] self.module_view().struct_defs@[j],
                    ) != name@,
            decreases n - i,
        {
            let d = &m.struct_defs[i];
            let handle = self.struct_handle_at(d.struct_handle);
            let def_name = self.identifier_at(handle.name);
            if name.eq_name(def_name) {
                return Some(d);
            }
            i = i + 1;
        }
        None
    }

    /// The ability set of a type expression, given an ambient array of
    /// ability constraints, one per enclosing type parameter.
    ///
    /// A type parameter has the abilities of its constraints; a struct
    /// instantiation's abilities are predicated on the particular
    /// instantiation, with the handle's phantom parameters imposing no
    /// constraint.  An instantiation whose argument count disagrees with
    /// the handle's declared arity is reported as a validation error.
    fn abilities(&self, ty: &SignatureToken, constraints: &[AbilitySet]) -> (r: PartialVMResult<
        AbilitySet,
    >)
        requires
            self.module_view().wf(),
            token_abilities_wf(
                *ty,
                self.module_view().struct_handles@.len() as int,
                constraints@.len() as int,
            ),
        ensures
            r == spec_abilities(self.module_view(), *ty, constraints@),
    {
        token_abilities(self.as_module(), ty, constraints)
    }
}

/// Whether the ability computation is defined for a type expression: every
/// struct-handle index it resolves lies within the struct-handle pool, and
/// every type-parameter index it reads lies within the ambient constraints
/// array.  Indices under a reference are never resolved, so they are not
/// constrained.  The arity of a struct instantiation is deliberately not
/// part of this predicate: a mismatch there is a recoverable validation
/// error, not a caller defect.
pub open spec fn token_abilities_wf(
    t: SignatureToken,
    n_struct_handles: int,
    n_constraints: int,
) -> bool
    decreases t,
{
    match t {
        SignatureToken::TypeParameter(i) => i < n_constraints,
        SignatureToken::Vector(elem) => token_abilities_wf(*elem, n_struct_handles, n_constraints),
        SignatureToken::Struct(idx) => idx.0 < n_struct_handles,
        SignatureToken::StructInstantiation(idx, type_args) => idx.0 < n_struct_handles
            && tokens_abilities_wf(type_args@, n_struct_handles, n_constraints),
        _ => true,
    }
}

/// `token_abilities_wf`, over every element of a sequence of type
/// expressions.
pub open spec fn tokens_abilities_wf(
    s: Seq<SignatureToken>,
    n_struct_handles: int,
    n_constraints: int,
) -> bool
    decreases s,
{
    if s.len() == 0 {
        true
    } else {
        tokens_abilities_wf(s.drop_last(), n_struct_handles, n_constraints)
            && token_abilities_wf(s.last(), n_struct_handles, n_constraints)
    }
}

/// Well-formedness of a sequence of type expressions carries to each of
/// its elements.
pub proof fn lemma_tokens_abilities_wf_elem(
    s: Seq<SignatureToken>,
    n_struct_handles: int,
    n_constraints: int,
    k: int,
)
    requires
        tokens_abilities_wf(s, n_struct_handles, n_constraints),
        0 <= k < s.len(),
    ensures
        token_abilities_wf(s[k], n_struct_handles, n_constraints),
    decreases s,
{
    if k < s.len() - 1 {
        assert(s.drop_last()[k] == s[k]);
        lemma_tokens_abilities_wf_elem(s.drop_last(), n_struct_handles, n_constraints, k);
    }
}

/// The per-parameter phantom flags declared on a struct handle, by
/// position.
pub open spec fn spec_phantom_flags(type_parameters: Seq<StructTypeParameter>) -> Seq<bool> {
    Seq::new(type_parameters.len(), |k: int| type_parameters[k].is_phantom)
}

/// The ability set of a type expression under an ambient array of
/// type-parameter constraints, or the validation error on an arity
/// mismatch between a struct instantiation and its handle's declared type
/// parameters.
pub open spec fn spec_abilities(
    m: CompiledModule,
    t: SignatureToken,
    constraints: Seq<AbilitySet>,
) -> PartialVMResult<AbilitySet>
    decreases t,
{
    match t {
        SignatureToken::Bool => Ok(AbilitySet::spec_primitives()),
        SignatureToken::U8 => Ok(AbilitySet::spec_primitives()),
        SignatureToken::U16 => Ok(AbilitySet::spec_primitives()),
        SignatureToken::U32 => Ok(AbilitySet::spec_primitives()),
        SignatureToken::U64 => Ok(AbilitySet::spec_primitives()),
        SignatureToken::U128 => Ok(AbilitySet::spec_primitives()),
        SignatureToken::U256 => Ok(AbilitySet::spec_primitives()),
        SignatureToken::Address => Ok(AbilitySet::spec_primitives()),
        SignatureToken::Reference(_) => Ok(AbilitySet::spec_references()),
        SignatureToken::MutableReference(_) => Ok(AbilitySet::spec_references()),
        SignatureToken::Signer => Ok(AbilitySet::spec_signer()),
        SignatureToken::TypeParameter(i) => Ok(constraints[i as int]),
        SignatureToken::Vector(elem) => match spec_abilities(m, *elem, constraints) {
            Ok(a) => Ok(
                AbilitySet::spec_polymorphic_abilities(
                    AbilitySet::spec_vector(),
                    seq![false],
                    seq![a],
                ),
            ),
            Err(e) => Err(e),
        },
        SignatureToken::Struct(idx) => Ok(m.struct_handles@[idx.0 as int].abilities),
        SignatureToken::StructInstantiation(idx, type_args) => {
            let sh = m.struct_handles@[idx.0 as int];
            match spec_abilities_seq(m, type_args@, constraints) {
                Ok(args) => if type_args@.len() == sh.type_parameters@.len() {
                    Ok(
                        AbilitySet::spec_polymorphic_abilities(
                            sh.abilities,
                            spec_phantom_flags(sh.type_parameters@),
                            args,
                        ),
                    )
                } else {
                    Err(arity_mismatch_error())
                },
                Err(e) => Err(e),
            }
        },
    }
}

/// `spec_abilities`, over every element of a sequence of type expressions
/// in order; the first failure is the failure of the whole.
pub open spec fn spec_abilities_seq(
    m: CompiledModule,
    s: Seq<SignatureToken>,
    constraints: Seq<AbilitySet>,
) -> PartialVMResult<Seq<AbilitySet>>
    decreases s,
{
    if s.len() == 0 {
        Ok(Seq::empty())
    } else {
        match spec_abilities_seq(m, s.drop_last(), constraints) {
            Ok(pre) => match spec_abilities(m, s.last(), constraints) {
                Ok(a) => Ok(pre.push(a)),
                Err(e) => Err(e),
            },
            Err(e) => Err(e),
        }
    }
}

/// The only error the ability computation ever produces is the arity
/// mismatch error.
pub proof fn lemma_abilities_err_value(
    m: CompiledModule,
    t: SignatureToken,
    constraints: Seq<AbilitySet>,
)
    ensures
        spec_abilities(m, t, constraints) is Err ==> spec_abilities(m, t, constraints)
            == Err::<AbilitySet, PartialVMError>(arity_mismatch_error()),
    decreases t,
{
    match t {
        SignatureToken::Vector(elem) => lemma_abilities_err_value(m, *elem, constraints),
        SignatureToken::StructInstantiation(idx, type_args) => lemma_abilities_seq_err_value(
            m,
            type_args@,
            constraints,
        ),
        _ => {},
    }
}

/// The only error the sequence form of the ability computation ever
/// produces is the arity mismatch error.
pub proof fn lemma_abilities_seq_err_value(
    m: CompiledModule,
    s: Seq<SignatureToken>,
    constraints: Seq<AbilitySet>,
)
    ensures
        spec_abilities_seq(m, s, constraints) is Err ==> spec_abilities_seq(m, s, constraints)
            == Err::<Seq<AbilitySet>, PartialVMError>(arity_mismatch_error()),
    decreases s,
{
    if s.len() > 0 {
        lemma_abilities_seq_err_value(m, s.drop_last(), constraints);
        lemma_abilities_err_value(m, s.last(), constraints);
    }
}

/// The sequence form of the ability computation, when it succeeds, yields
/// one ability set per type expression.
pub proof fn lemma_abilities_seq_len(
    m: CompiledModule,
    s: Seq<SignatureToken>,
    constraints: Seq<AbilitySet>,
)
    ensures
        spec_abilities_seq(m, s, constraints) matches Ok(v) ==> v.len() == s.len(),
    decreases s,
{
    if s.len() > 0 {
        lemma_abilities_seq_len(m, s.drop_last(), constraints);
    }
}

/// A failing element anywhere in a sequence of type expressions fails the
/// whole sequence.
pub proof fn lemma_abilities_seq_elem_err(
    m: CompiledModule,
    s: Seq<SignatureToken>,
    constraints: Seq<AbilitySet>,
    k: int,
)
    requires
        0 <= k < s.len(),
        spec_abilities(m, s[k], constraints) is Err,
    ensures
        spec_abilities_seq(m, s, constraints) is Err,
    decreases s,
{
    if k < s.len() - 1 {
        assert(s.drop_last()[k] == s[k]);
        lemma_abilities_seq_elem_err(m, s.drop_last(), constraints, k);
    } else {
        assert(s.last() == s[k]);
    }
}

/// The recursive worker behind `ModuleAccess::abilities`, on the concrete
/// module.
fn token_abilities(m: &CompiledModule, ty: &SignatureToken, constraints: &[AbilitySet]) -> (r:
    PartialVMResult<AbilitySet>)
    requires
        m.wf(),
        token_abilities_wf(*ty, m.struct_handles@.len() as int, constraints@.len() as int),
    ensures
        r == spec_abilities(*m, *ty, constraints@),
    decreases *ty,
{
    match ty {
        SignatureToken::Bool => Ok(AbilitySet::primitives()),
        SignatureToken::U8 => Ok(AbilitySet::primitives()),
        SignatureToken::U16 => Ok(AbilitySet::primitives()),
        SignatureToken::U32 => Ok(AbilitySet::primitives()),
        SignatureToken::U64 => Ok(AbilitySet::primitives()),
        SignatureToken::U128 => Ok(AbilitySet::primitives()),
        SignatureToken::U256 => Ok(AbilitySet::primitives()),
        SignatureToken::Address => Ok(AbilitySet::primitives()),
        SignatureToken::Reference(_) => Ok(AbilitySet::references()),
        SignatureToken::MutableReference(_) => Ok(AbilitySet::references()),
        SignatureToken::Signer => Ok(AbilitySet::signer()),
        SignatureToken::TypeParameter(idx) => Ok(constraints[*idx as usize]),
        SignatureToken::Vector(elem) => {
            match token_abilities(m, &**elem, constraints) {
                Ok(a) => {
                    let mut phantoms: Vec<bool> = Vec::new();
                    phantoms.push(false);
                    let mut args: Vec<AbilitySet> = Vec::new();
                    args.push(a);
                    proof {
                        assert(phantoms@ =~= seq![false]);
                        assert(args@ =~= seq![a]);
                    }
                    AbilitySet::polymorphic_abilities(
                        AbilitySet::vector(),
                        phantoms.as_slice(),
                        args.as_slice(),
                    )
                },
                Err(e) => Err(e),
            }
        },
        SignatureToken::Struct(idx) => {
            let sh = &m.struct_handles[idx.0 as usize];
            Ok(sh.abilities)
        },
        SignatureToken::StructInstantiation(idx, type_args) => {
            let sh = &m.struct_handles[idx.0 as usize];
            let declared_abilities = sh.abilities;
            match token_abilities_list(m, type_args, constraints) {
                Ok(type_arguments) => {
                    proof {
                        lemma_abilities_seq_len(*m, type_args@, constraints@);
                    }
                    let n_params = sh.type_parameters.len();
                    let mut phantoms: Vec<bool> = Vec::new();
                    let mut j: usize = 0;
                    while j < n_params
                        invariant
                            0 <= j <= n_params,
                            n_params == sh.type_parameters@.len(),
                            phantoms@.len() == j,
                            forall|k: int|
                                0 <= k < j ==> phantoms@[k] == sh.type_parameters@[k].is_phantom,
                        decreases n_params - j,
                    {
                        phantoms.push(sh.type_parameters[j].is_phantom);
                        j = j + 1;
                    }
                    proof {
                        assert(phantoms@ =~= spec_phantom_flags(sh.type_parameters@));
                    }
                    AbilitySet::polymorphic_abilities(
                        declared_abilities,
                        phantoms.as_slice(),
                        type_arguments.as_slice(),
                    )
                },
                Err(e) => Err(e),
            }
        },
    }
}

/// `token_abilities`, over every element of a list of type expressions in
/// order; the first failure is the failure of the whole.
fn token_abilities_list(
    m: &CompiledModule,
    tokens: &Vec<SignatureToken>,
    constraints: &[AbilitySet],
) -> (r: PartialVMResult<Vec<AbilitySet>>)
    requires
        m.wf(),
        tokens_abilities_wf(tokens@, m.struct_handles@.len() as int, constraints@.len() as int),
    ensures
        r matches Ok(v) ==> spec_abilities_seq(*m, tokens@, constraints@) == Ok::<
            Seq<AbilitySet>,
            PartialVMError,
        >(v@),
        r matches Err(e) ==> spec_abilities_seq(*m, tokens@, constraints@) == Err::<
            Seq<AbilitySet>,
            PartialVMError,
        >(e),
    decreases tokens@,
{
    let n = tokens.len();
    let mut out: Vec<AbilitySet> = Vec::new();
    let mut i: usize = 0;
    while i < n
        invariant
            m.wf(),
            tokens_abilities_wf(tokens@, m.struct_handles@.len() as int, constraints@.len() as int),
            n == tokens@.len(),
            0 <= i <= n,
            spec_abilities_seq(*m, tokens@.take(i as int), constraints@) == Ok::<
                Seq<AbilitySet>,
                PartialVMError,
            >(out@),
        decreases n - i,
    {
        proof {
            lemma_tokens_abilities_wf_elem(
                tokens@,
                m.struct_handles@.len() as int,
                constraints@.len() as int,
                i as int,
            );
        }
        match token_abilities(m, &tokens[i], constraints) {
            Ok(a) => {
                out.push(a);
                proof {
                    let longer = tokens@.take(i + 1 as int);
                    assert(longer.drop_last() =~= tokens@.take(i as int));
                    assert(longer.last() == tokens@[i as int]);
                }
            },
            Err(e) => {
                proof {
                    lemma_abilities_seq_elem_err(*m, tokens@, constraints@, i as int);
                    lemma_abilities_seq_err_value(*m, tokens@, constraints@);
                    lemma_abilities_err_value(*m, tokens@[i as int], constraints@);
                }
                return Err(e);
            },
        }
        i = i + 1;
    }
    proof {
        assert(tokens@.take(n as int) =~= tokens@);
    }
    Ok(out)
}

/// The abilities of a bare (non-generic) struct type are exactly the
/// declared abilities of its struct handle, whatever the ambient
/// constraints array.
pub proof fn lemma_struct_abilities_declared(
    m: CompiledModule,
    idx: StructHandleIndex,
    constraints: Seq<AbilitySet>,
)
    requires
        idx.0 < m.struct_handles@.len(),
        m.struct_handles@[idx.0 as int].type_parameters@.len() == 0,
    ensures
        spec_abilities(m, SignatureToken::Struct(idx), constraints) == Ok::<
            AbilitySet,
            PartialVMError,
        >(m.struct_handles@[idx.0 as int].abilities),
{
}

/// Composition never adds abilities beyond the declared base set of the
/// vector type constructor: whenever the abilities of a vector type are
/// defined, they are a subset of that base set, for every element type and
/// every constraints array.
pub proof fn lemma_vector_abilities_subset(
    m: CompiledModule,
    t: SignatureToken,
    constraints: Seq<AbilitySet>,
)
    requires
        t is Vector,
    ensures
        spec_abilities(m, t, constraints) matches Ok(a) ==> a.spec_subset_of(
            AbilitySet::spec_vector(),
        ),
{
}

/// For a struct instantiation whose handle declares no phantom parameter,
/// the resulting ability set is exactly the handle's declared set
/// intersected pairwise with the ability set of every type argument.
pub proof fn lemma_instantiation_no_phantoms_intersects(
    m: CompiledModule,
    idx: StructHandleIndex,
    type_args: Vec<SignatureToken>,
    constraints: Seq<AbilitySet>,
    arg_sets: Seq<AbilitySet>,
)
    requires
        idx.0 < m.struct_handles@.len(),
        m.struct_handles@[idx.0 as int].type_parameters@.len() == type_args@.len(),
        forall|k: int|
            0 <= k < m.struct_handles@[idx.0 as int].type_parameters@.len()
                ==> !(#[trigger] m.struct_handles@[idx.0 as int].type_parameters@[k]).is_phantom,
        spec_abilities_seq(m, type_args@, constraints) == Ok::<Seq<AbilitySet>, PartialVMError>(
            arg_sets,
        ),
    ensures
        spec_abilities(m, SignatureToken::StructInstantiation(idx, type_args), constraints)
            == Ok::<AbilitySet, PartialVMError>(crate::ability::spec_intersect_all(
            m.struct_handles@[idx.0 as int].abilities,
            arg_sets,
        )),
{
    let sh = m.struct_handles@[idx.0 as int];
    let phantoms = spec_phantom_flags(sh.type_parameters@);
    lemma_abilities_seq_len(m, type_args@, constraints);
    assert(forall|k: int| 0 <= k < phantoms.len() ==> !phantoms[k]);
    crate::ability::lemma_polymorphic_abilities_no_phantoms(sh.abilities, phantoms, arg_sets);
}

/// For a struct instantiation whose handle declares its `k`-th type
/// parameter phantom, varying the `k`-th type argument's ability set while
/// holding the others fixed never changes the resulting ability set.
pub proof fn lemma_instantiation_phantom_argument_irrelevant(
    m: CompiledModule,
    idx: StructHandleIndex,
    args1: Vec<SignatureToken>,
    args2: Vec<SignatureToken>,
    constraints: Seq<AbilitySet>,
    sets1: Seq<AbilitySet>,
    sets2: Seq<AbilitySet>,
    k: int,
)
    requires
        idx.0 < m.struct_handles@.len(),
        m.struct_handles@[idx.0 as int].type_parameters@.len() == args1@.len(),
        args2@.len() == args1@.len(),
        0 <= k < args1@.len(),
        m.struct_handles@[idx.0 as int].type_parameters@[k].is_phantom,
        spec_abilities_seq(m, args1@, constraints) == Ok::<Seq<AbilitySet>, PartialVMError>(sets1),
        spec_abilities_seq(m, args2@, constraints) == Ok::<Seq<AbilitySet>, PartialVMError>(sets2),
        forall|j: int| 0 <= j < sets1.len() && j != k ==> sets1[j] == sets2[j],
    ensures
        spec_abilities(m, SignatureToken::StructInstantiation(idx, args1), constraints)
            == spec_abilities(m, SignatureToken::StructInstantiation(idx, args2), constraints),
{
    let sh = m.struct_handles@[idx.0 as int];
    let phantoms = spec_phantom_flags(sh.type_parameters@);
    lemma_abilities_seq_len(m, args1@, constraints);
    lemma_abilities_seq_len(m, args2@, constraints);
    assert(phantoms[k]);
    crate::ability::lemma_polymorphic_abilities_phantom_irrelevant(
        sh.abilities,
        phantoms,
        sets1,
        sets2,
        k,
    );
}

/// An arity mismatch between a struct instantiation's type-argument count
/// and its handle's declared type-parameter count always yields the
/// validation error.
pub proof fn lemma_instantiation_arity_mismatch(
    m: CompiledModule,
    idx: StructHandleIndex,
    type_args: Vec<SignatureToken>,
    constraints: Seq<AbilitySet>,
)
    requires
        idx.0 < m.struct_handles@.len(),
        type_args@.len() != m.struct_handles@[idx.0 as int].type_parameters@.len(),
    ensures
        spec_abilities(m, SignatureToken::StructInstantiation(idx, type_args), constraints)
            == Err::<AbilitySet, PartialVMError>(arity_mismatch_error()),
{
    lemma_abilities_seq_err_value(m, type_args@, constraints);
}

impl ModuleAccess for CompiledModule {
    open spec fn module_view(&self) -> CompiledModule {
        *self
    }

    fn as_module(&self) -> (m: &CompiledModule) {
        self
    }
}

} // verus!
