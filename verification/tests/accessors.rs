//! The module accessor: pool lookup, bulk views, identity, dependency and
//! friend enumeration, and definition search.

use module_access::ability::AbilitySet;
use module_access::access::ModuleAccess;
use module_access::file_format::{
    AddressIdentifierIndex, CodeUnit, CompiledModule, Constant, ConstantPoolIndex, FieldHandle,
    FieldHandleIndex, FieldInstantiation, FieldInstantiationIndex, FunctionDefinition,
    FunctionDefinitionIndex, FunctionHandle, FunctionHandleIndex, FunctionInstantiation,
    FunctionInstantiationIndex, IdentifierIndex, ModuleHandle, ModuleHandleIndex, Signature,
    SignatureIndex, SignatureToken, StructDefInstantiation, StructDefInstantiationIndex,
    StructDefinition, StructDefinitionIndex, StructFieldInformation, StructHandle,
    StructHandleIndex, StructTypeParameter,
};
use module_access::identity::{AccountAddress, Identifier, ModuleId};

fn ident(name: &str) -> Identifier {
    Identifier { name: name.to_string() }
}

fn addr(last: u8) -> AccountAddress {
    let mut bytes = [0u8; 32];
    bytes[31] = last;
    AccountAddress { bytes }
}

fn mh(address: u16, name: u16) -> ModuleHandle {
    ModuleHandle {
        address: AddressIdentifierIndex(address),
        name: IdentifierIndex(name),
    }
}

/// A module named "m" at address ..01, with one dependency handle "dep" at
/// address ..02 (listed twice), a second distinct dependency "other", a
/// duplicate of the self-handle, one friend, two structs, one function and
/// one field handle.
fn sample_module() -> CompiledModule {
    CompiledModule {
        version: 6,
        self_module_handle_idx: ModuleHandleIndex(0),
        // pool order: self, dep, dep again, copy of self, other
        module_handles: vec![mh(0, 0), mh(1, 1), mh(1, 1), mh(0, 0), mh(1, 2)],
        struct_handles: vec![
            StructHandle {
                module: ModuleHandleIndex(0),
                name: IdentifierIndex(3),
                abilities: AbilitySet::primitives(),
                type_parameters: vec![],
            },
            StructHandle {
                module: ModuleHandleIndex(0),
                name: IdentifierIndex(4),
                abilities: AbilitySet::all(),
                type_parameters: vec![StructTypeParameter {
                    constraints: AbilitySet::empty(),
                    is_phantom: false,
                }],
            },
        ],
        function_handles: vec![FunctionHandle {
            module: ModuleHandleIndex(0),
            name: IdentifierIndex(5),
            parameters: SignatureIndex(0),
            return_: SignatureIndex(1),
            type_parameters: vec![AbilitySet::empty()],
        }],
        field_handles: vec![FieldHandle {
            owner: StructDefinitionIndex(0),
            field: 0,
        }],
        friend_decls: vec![mh(1, 1)],
        struct_def_instantiations: vec![StructDefInstantiation {
            def: StructDefinitionIndex(1),
            type_parameters: SignatureIndex(1),
        }],
        function_instantiations: vec![FunctionInstantiation {
            handle: FunctionHandleIndex(0),
            type_parameters: SignatureIndex(1),
        }],
        field_instantiations: vec![FieldInstantiation {
            handle: FieldHandleIndex(0),
            type_parameters: SignatureIndex(1),
        }],
        signatures: vec![
            Signature(vec![]),
            Signature(vec![SignatureToken::U64]),
        ],
        identifiers: vec![
            ident("m"),
            ident("dep"),
            ident("other"),
            ident("Coin"),
            ident("Wrap"),
            ident("f"),
        ],
        address_identifiers: vec![addr(1), addr(2)],
        constant_pool: vec![Constant {
            type_: SignatureToken::U8,
            data: vec![7],
        }],
        struct_defs: vec![
            StructDefinition {
                struct_handle: StructHandleIndex(0),
                field_information: StructFieldInformation::Native,
            },
            StructDefinition {
                struct_handle: StructHandleIndex(1),
                field_information: StructFieldInformation::Declared(vec![]),
            },
        ],
        function_defs: vec![FunctionDefinition {
            function: FunctionHandleIndex(0),
            code: Some(CodeUnit {
                locals: SignatureIndex(1),
            }),
        }],
    }
}

#[test]
fn pool_lookups_return_indexed_records() {
    let m = sample_module();
    assert_eq!(*m.module_handle_at(ModuleHandleIndex(1)), mh(1, 1));
    assert_eq!(m.struct_handle_at(StructHandleIndex(0)).name, IdentifierIndex(3));
    assert_eq!(m.struct_handle_at(StructHandleIndex(1)).type_parameters.len(), 1);
    assert_eq!(m.function_handle_at(FunctionHandleIndex(0)).return_, SignatureIndex(1));
    assert_eq!(m.field_handle_at(FieldHandleIndex(0)).owner, StructDefinitionIndex(0));
    assert_eq!(
        m.struct_instantiation_at(StructDefInstantiationIndex(0)).def,
        StructDefinitionIndex(1)
    );
    assert_eq!(
        m.function_instantiation_at(FunctionInstantiationIndex(0)).handle,
        FunctionHandleIndex(0)
    );
    assert_eq!(
        m.field_instantiation_at(FieldInstantiationIndex(0)).handle,
        FieldHandleIndex(0)
    );
    assert_eq!(m.signature_at(SignatureIndex(1)).0, vec![SignatureToken::U64]);
    assert_eq!(*m.identifier_at(IdentifierIndex(1)), ident("dep"));
    assert_eq!(*m.address_identifier_at(AddressIdentifierIndex(1)), addr(2));
    assert_eq!(m.constant_at(ConstantPoolIndex(0)).data, vec![7]);
    assert_eq!(
        m.struct_def_at(StructDefinitionIndex(1)).struct_handle,
        StructHandleIndex(1)
    );
    let def = m.function_def_at(FunctionDefinitionIndex(0));
    assert_eq!(def.function, FunctionHandleIndex(0));
    assert_eq!(def.code, Some(CodeUnit { locals: SignatureIndex(1) }));
}

#[test]
fn bulk_accessors_expose_whole_pools() {
    let m = sample_module();
    assert_eq!(m.module_handles().len(), 5);
    assert_eq!(m.struct_handles().len(), 2);
    assert_eq!(m.function_handles().len(), 1);
    assert_eq!(m.field_handles().len(), 1);
    assert_eq!(m.struct_instantiations().len(), 1);
    assert_eq!(m.function_instantiations().len(), 1);
    assert_eq!(m.field_instantiations().len(), 1);
    assert_eq!(m.signatures().len(), 2);
    assert_eq!(m.constant_pool().len(), 1);
    assert_eq!(m.identifiers().len(), 6);
    assert_eq!(m.address_identifiers().len(), 2);
    assert_eq!(m.struct_defs().len(), 2);
    assert_eq!(m.function_defs().len(), 1);
    assert_eq!(m.friend_decls().len(), 1);
    assert_eq!(m.module_handles()[3], mh(0, 0));
}

#[test]
fn version_and_self_handle() {
    let m = sample_module();
    assert_eq!(m.version(), 6);
    assert_eq!(m.self_handle_idx(), ModuleHandleIndex(0));
    assert_eq!(*m.self_handle(), mh(0, 0));
    assert_eq!(m.as_module().version, 6);
}

#[test]
fn identity_resolves_through_pools() {
    let m = sample_module();
    assert_eq!(*m.name(), ident("m"));
    assert_eq!(*m.address(), addr(1));
    assert_eq!(m.self_id(), ModuleId::new(addr(1), ident("m")));
    let dep = mh(1, 1);
    assert_eq!(m.module_id_for_handle(&dep), ModuleId::new(addr(2), ident("dep")));
}

#[test]
fn struct_names_resolve_through_handles() {
    let m = sample_module();
    assert_eq!(*m.struct_name(StructDefinitionIndex(0)), ident("Coin"));
    assert_eq!(*m.struct_name(StructDefinitionIndex(1)), ident("Wrap"));
}

#[test]
fn immediate_dependencies_exclude_every_self_handle_entry() {
    let m = sample_module();
    let deps = m.immediate_dependencies();
    // both copies of the self-handle are excluded; both "dep" entries and
    // "other" are kept, in pool order
    assert_eq!(
        deps,
        vec![
            ModuleId::new(addr(2), ident("dep")),
            ModuleId::new(addr(2), ident("dep")),
            ModuleId::new(addr(2), ident("other")),
        ]
    );
}

#[test]
fn immediate_friends_resolve_in_order() {
    let m = sample_module();
    assert_eq!(m.immediate_friends(), vec![ModuleId::new(addr(2), ident("dep"))]);
}

#[test]
fn self_handle_need_not_be_first() {
    let mut m = sample_module();
    m.self_module_handle_idx = ModuleHandleIndex(1);
    assert_eq!(*m.self_handle(), mh(1, 1));
    assert_eq!(*m.name(), ident("dep"));
    assert_eq!(*m.address(), addr(2));
    assert_eq!(m.self_id(), ModuleId::new(addr(2), ident("dep")));
    // now every entry equal to mh(1, 1) is the self-handle and is excluded
    assert_eq!(
        m.immediate_dependencies(),
        vec![
            ModuleId::new(addr(1), ident("m")),
            ModuleId::new(addr(1), ident("m")),
            ModuleId::new(addr(2), ident("other")),
        ]
    );
}

#[test]
fn find_struct_def_returns_first_match() {
    let m = sample_module();
    let found = m.find_struct_def(StructHandleIndex(1)).expect("defined struct");
    assert_eq!(found.struct_handle, StructHandleIndex(1));
    assert!(matches!(found.field_information, StructFieldInformation::Declared(_)));
    let first = m.find_struct_def(StructHandleIndex(0)).expect("defined struct");
    assert_eq!(first.struct_handle, StructHandleIndex(0));
}

#[test]
fn find_struct_def_none_for_undefined_handle() {
    let mut m = sample_module();
    m.struct_handles.push(StructHandle {
        module: ModuleHandleIndex(0),
        name: IdentifierIndex(2),
        abilities: AbilitySet::empty(),
        type_parameters: vec![],
    });
    assert!(m.find_struct_def(StructHandleIndex(2)).is_none());
}

#[test]
fn find_struct_def_by_name_scans_resolved_names() {
    let m = sample_module();
    let found = m.find_struct_def_by_name(&ident("Wrap")).expect("named struct");
    assert_eq!(found.struct_handle, StructHandleIndex(1));
    assert!(m.find_struct_def_by_name(&ident("Absent")).is_none());
}
