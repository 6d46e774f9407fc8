//! The ability computation engine: primitive cases, polymorphic
//! composition, phantom parameters, and the arity-mismatch error.

use module_access::ability::AbilitySet;
use module_access::access::ModuleAccess;
use module_access::errors::{PartialVMError, StatusCode};
use module_access::file_format::{
    AddressIdentifierIndex, CompiledModule, IdentifierIndex, ModuleHandle, ModuleHandleIndex,
    SignatureToken, StructHandle, StructHandleIndex, StructTypeParameter,
};
use module_access::identity::{AccountAddress, Identifier};

fn aset(has_copy: bool, has_drop: bool, has_store: bool, has_key: bool) -> AbilitySet {
    AbilitySet { has_copy, has_drop, has_store, has_key }
}

fn ident(name: &str) -> Identifier {
    Identifier { name: name.to_string() }
}

fn addr(last: u8) -> AccountAddress {
    let mut bytes = [0u8; 32];
    bytes[31] = last;
    AccountAddress { bytes }
}

fn module_with_struct_handles(struct_handles: Vec<StructHandle>) -> CompiledModule {
    let mut identifiers = vec![ident("m")];
    for k in 0..struct_handles.len() {
        identifiers.push(ident(&format!("S{}", k)));
    }
    CompiledModule {
        version: 6,
        self_module_handle_idx: ModuleHandleIndex(0),
        module_handles: vec![ModuleHandle {
            address: AddressIdentifierIndex(0),
            name: IdentifierIndex(0),
        }],
        struct_handles,
        function_handles: vec![],
        field_handles: vec![],
        friend_decls: vec![],
        struct_def_instantiations: vec![],
        function_instantiations: vec![],
        field_instantiations: vec![],
        signatures: vec![],
        identifiers,
        address_identifiers: vec![addr(1)],
        constant_pool: vec![],
        struct_defs: vec![],
        function_defs: vec![],
    }
}

fn handle(abilities: AbilitySet, type_parameters: Vec<StructTypeParameter>, name: u16) -> StructHandle {
    StructHandle {
        module: ModuleHandleIndex(0),
        name: IdentifierIndex(name),
        abilities,
        type_parameters,
    }
}

fn non_phantom(constraints: AbilitySet) -> StructTypeParameter {
    StructTypeParameter { constraints, is_phantom: false }
}

fn phantom(constraints: AbilitySet) -> StructTypeParameter {
    StructTypeParameter { constraints, is_phantom: true }
}

fn arity_error() -> PartialVMError {
    PartialVMError { major_status: StatusCode::NumberOfTypeArgumentsMismatch }
}

#[test]
fn primitives_have_primitive_abilities() {
    let m = module_with_struct_handles(vec![]);
    let expected = Ok(aset(true, true, true, false));
    assert_eq!(m.abilities(&SignatureToken::Bool, &[]), expected);
    assert_eq!(m.abilities(&SignatureToken::U8, &[]), expected);
    assert_eq!(m.abilities(&SignatureToken::U16, &[]), expected);
    assert_eq!(m.abilities(&SignatureToken::U32, &[]), expected);
    assert_eq!(m.abilities(&SignatureToken::U64, &[]), expected);
    assert_eq!(m.abilities(&SignatureToken::U128, &[]), expected);
    assert_eq!(m.abilities(&SignatureToken::U256, &[]), expected);
    assert_eq!(m.abilities(&SignatureToken::Address, &[]), expected);
}

#[test]
fn references_copy_and_drop_only() {
    let m = module_with_struct_handles(vec![]);
    let expected = Ok(aset(true, true, false, false));
    let r = SignatureToken::Reference(Box::new(SignatureToken::U64));
    let mr = SignatureToken::MutableReference(Box::new(SignatureToken::Signer));
    assert_eq!(m.abilities(&r, &[]), expected);
    assert_eq!(m.abilities(&mr, &[]), expected);
}

#[test]
fn signer_drops_only() {
    let m = module_with_struct_handles(vec![]);
    assert_eq!(m.abilities(&SignatureToken::Signer, &[]), Ok(aset(false, true, false, false)));
}

#[test]
fn type_parameter_reads_constraints() {
    let m = module_with_struct_handles(vec![]);
    let constraints = [aset(true, false, false, true), aset(false, true, true, false)];
    let t0 = SignatureToken::TypeParameter(0);
    let t1 = SignatureToken::TypeParameter(1);
    assert_eq!(m.abilities(&t0, &constraints), Ok(aset(true, false, false, true)));
    assert_eq!(m.abilities(&t1, &constraints), Ok(aset(false, true, true, false)));
}

#[test]
fn vector_of_u8_keeps_full_vector_set() {
    let m = module_with_struct_handles(vec![]);
    let ty = SignatureToken::Vector(Box::new(SignatureToken::U8));
    assert_eq!(m.abilities(&ty, &[]), Ok(AbilitySet::vector()));
    assert_eq!(m.abilities(&ty, &[]), Ok(aset(true, true, true, false)));
}

#[test]
fn vector_of_signer_drops_only() {
    let m = module_with_struct_handles(vec![]);
    let ty = SignatureToken::Vector(Box::new(SignatureToken::Signer));
    assert_eq!(m.abilities(&ty, &[]), Ok(aset(false, true, false, false)));
}

#[test]
fn nested_vector_composes_recursively() {
    let m = module_with_struct_handles(vec![]);
    let inner = SignatureToken::Vector(Box::new(SignatureToken::Signer));
    let ty = SignatureToken::Vector(Box::new(inner));
    assert_eq!(m.abilities(&ty, &[]), Ok(aset(false, true, false, false)));
}

#[test]
fn bare_struct_uses_declared_abilities() {
    let declared = aset(true, false, true, false);
    let m = module_with_struct_handles(vec![handle(declared, vec![], 1)]);
    let ty = SignatureToken::Struct(StructHandleIndex(0));
    assert_eq!(m.abilities(&ty, &[]), Ok(declared));
    let constraints = [aset(true, true, true, true)];
    assert_eq!(m.abilities(&ty, &constraints), Ok(declared));
}

#[test]
fn non_phantom_argument_constrains_result() {
    let declared = aset(true, true, true, false);
    let m = module_with_struct_handles(vec![
        handle(declared, vec![non_phantom(AbilitySet::empty())], 1),
    ]);
    let ty = SignatureToken::StructInstantiation(
        StructHandleIndex(0),
        vec![SignatureToken::Signer],
    );
    assert_eq!(m.abilities(&ty, &[]), Ok(aset(false, true, false, false)));
}

#[test]
fn phantom_argument_imposes_no_constraint() {
    let declared = aset(true, true, true, true);
    let m = module_with_struct_handles(vec![
        handle(declared, vec![phantom(AbilitySet::empty())], 1),
        handle(AbilitySet::empty(), vec![], 2),
    ]);
    let ty = SignatureToken::StructInstantiation(
        StructHandleIndex(0),
        vec![SignatureToken::Struct(StructHandleIndex(1))],
    );
    assert_eq!(m.abilities(&ty, &[]), Ok(declared));
}

#[test]
fn varying_phantom_argument_never_changes_result() {
    let declared = aset(true, true, true, true);
    let m = module_with_struct_handles(vec![
        handle(declared, vec![phantom(AbilitySet::empty())], 1),
        handle(AbilitySet::empty(), vec![], 2),
    ]);
    let with_empty = SignatureToken::StructInstantiation(
        StructHandleIndex(0),
        vec![SignatureToken::Struct(StructHandleIndex(1))],
    );
    let with_primitive = SignatureToken::StructInstantiation(
        StructHandleIndex(0),
        vec![SignatureToken::U64],
    );
    let with_signer = SignatureToken::StructInstantiation(
        StructHandleIndex(0),
        vec![SignatureToken::Signer],
    );
    let r = m.abilities(&with_empty, &[]);
    assert_eq!(r, m.abilities(&with_primitive, &[]));
    assert_eq!(r, m.abilities(&with_signer, &[]));
    assert_eq!(r, Ok(declared));
}

#[test]
fn no_phantoms_intersect_pairwise() {
    let declared = aset(true, true, true, false);
    let m = module_with_struct_handles(vec![
        handle(
            declared,
            vec![non_phantom(AbilitySet::empty()), non_phantom(AbilitySet::empty())],
            1,
        ),
        handle(aset(true, true, false, false), vec![], 2),
        handle(aset(false, true, true, false), vec![], 3),
    ]);
    let ty = SignatureToken::StructInstantiation(
        StructHandleIndex(0),
        vec![
            SignatureToken::Struct(StructHandleIndex(1)),
            SignatureToken::Struct(StructHandleIndex(2)),
        ],
    );
    assert_eq!(m.abilities(&ty, &[]), Ok(aset(false, true, false, false)));
}

#[test]
fn constraints_flow_into_instantiation_arguments() {
    let declared = aset(true, true, true, false);
    let m = module_with_struct_handles(vec![
        handle(declared, vec![non_phantom(AbilitySet::empty())], 1),
    ]);
    let ty = SignatureToken::StructInstantiation(
        StructHandleIndex(0),
        vec![SignatureToken::TypeParameter(0)],
    );
    let constraints = [aset(true, false, true, false)];
    assert_eq!(m.abilities(&ty, &constraints), Ok(aset(true, false, true, false)));
}

#[test]
fn arity_mismatch_yields_validation_error() {
    let m = module_with_struct_handles(vec![
        handle(AbilitySet::all(), vec![non_phantom(AbilitySet::empty())], 1),
    ]);
    let too_few = SignatureToken::StructInstantiation(StructHandleIndex(0), vec![]);
    let too_many = SignatureToken::StructInstantiation(
        StructHandleIndex(0),
        vec![SignatureToken::U8, SignatureToken::U8],
    );
    assert_eq!(m.abilities(&too_few, &[]), Err(arity_error()));
    assert_eq!(m.abilities(&too_many, &[]), Err(arity_error()));
}

#[test]
fn nested_arity_mismatch_propagates() {
    let m = module_with_struct_handles(vec![
        handle(AbilitySet::all(), vec![non_phantom(AbilitySet::empty())], 1),
    ]);
    let bad_inner = SignatureToken::StructInstantiation(StructHandleIndex(0), vec![]);
    let ty = SignatureToken::Vector(Box::new(bad_inner));
    assert_eq!(m.abilities(&ty, &[]), Err(arity_error()));
    let bad_again = SignatureToken::StructInstantiation(StructHandleIndex(0), vec![]);
    let outer = SignatureToken::StructInstantiation(StructHandleIndex(0), vec![bad_again]);
    assert_eq!(m.abilities(&outer, &[]), Err(arity_error()));
}

#[test]
fn polymorphic_abilities_exact_composition() {
    let declared = aset(true, true, true, true);
    let args = [aset(true, false, true, false), aset(false, true, true, true)];
    let no_phantoms = [false, false];
    assert_eq!(
        AbilitySet::polymorphic_abilities(declared, &no_phantoms, &args),
        Ok(aset(false, false, true, false))
    );
    let second_phantom = [false, true];
    assert_eq!(
        AbilitySet::polymorphic_abilities(declared, &second_phantom, &args),
        Ok(aset(true, false, true, false))
    );
    assert_eq!(
        AbilitySet::polymorphic_abilities(declared, &[], &[]),
        Ok(declared)
    );
    assert_eq!(
        AbilitySet::polymorphic_abilities(declared, &[false], &[]),
        Err(arity_error())
    );
}

#[test]
fn ability_set_algebra() {
    assert_eq!(AbilitySet::primitives(), aset(true, true, true, false));
    assert_eq!(AbilitySet::references(), aset(true, true, false, false));
    assert_eq!(AbilitySet::signer(), aset(false, true, false, false));
    assert_eq!(AbilitySet::vector(), aset(true, true, true, false));
    assert_eq!(AbilitySet::empty(), aset(false, false, false, false));
    assert_eq!(AbilitySet::all(), aset(true, true, true, true));
    let a = aset(true, true, false, false);
    let b = aset(false, true, true, false);
    assert_eq!(a.intersect(b), aset(false, true, false, false));
    assert!(a.intersect(b).subset_of(a));
    assert!(a.intersect(b).subset_of(b));
    assert!(!a.subset_of(b));
    assert!(AbilitySet::empty().subset_of(AbilitySet::all()));
}
