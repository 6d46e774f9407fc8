//! The ability set: which capabilities (copy, drop, store, key) a type
//! carries, and the set algebra used to propagate abilities through generic
//! type constructors.

use vstd::prelude::*;
use crate::errors::{PartialVMError, PartialVMResult, StatusCode, arity_mismatch_error};

verus! {

/// A set of abilities drawn from {copy, drop, store, key}.
///
/// An ability is a permission determining how values of a type may be used:
/// duplicated (`copy`), discarded (`drop`), persisted (`store`), or used as
/// a storage key (`key`).
#[derive(Clone, Copy, PartialEq, Eq, Structural, Debug)]
#[verifier::ext_equal]
pub struct AbilitySet {
    pub has_copy: bool,
    pub has_drop: bool,
    pub has_store: bool,
    pub has_key: bool,
}

impl AbilitySet {
    /// The empty ability set.
    pub open spec fn spec_empty() -> AbilitySet {
        AbilitySet { has_copy: false, has_drop: false, has_store: false, has_key: false }
    }

    #[verifier::when_used_as_spec(spec_empty)]
    pub fn empty() -> (r: AbilitySet)
        ensures
            r == Self::spec_empty(),
    {
        AbilitySet { has_copy: false, has_drop: false, has_store: false, has_key: false }
    }

    /// The full ability set.
    pub open spec fn spec_all() -> AbilitySet {
        AbilitySet { has_copy: true, has_drop: true, has_store: true, has_key: true }
    }

    #[verifier::when_used_as_spec(spec_all)]
    pub fn all() -> (r: AbilitySet)
        ensures
            r == Self::spec_all(),
    {
        AbilitySet { has_copy: true, has_drop: true, has_store: true, has_key: true }
    }

    /// Abilities of the primitive types (booleans, integers, addresses).
    pub open spec fn spec_primitives() -> AbilitySet {
        AbilitySet { has_copy: true, has_drop: true, has_store: true, has_key: false }
    }

    #[verifier::when_used_as_spec(spec_primitives)]
    pub fn primitives() -> (r: AbilitySet)
        ensures
            r == Self::spec_primitives(),
    {
        AbilitySet { has_copy: true, has_drop: true, has_store: true, has_key: false }
    }

    /// Abilities of references, shared or mutable.
    pub open spec fn spec_references() -> AbilitySet {
        AbilitySet { has_copy: true, has_drop: true, has_store: false, has_key: false }
    }

    #[verifier::when_used_as_spec(spec_references)]
    pub fn references() -> (r: AbilitySet)
        ensures
            r == Self::spec_references(),
    {
        AbilitySet { has_copy: true, has_drop: true, has_store: false, has_key: false }
    }

    /// Abilities of the signer type.
    pub open spec fn spec_signer() -> AbilitySet {
        AbilitySet { has_copy: false, has_drop: true, has_store: false, has_key: false }
    }

    #[verifier::when_used_as_spec(spec_signer)]
    pub fn signer() -> (r: AbilitySet)
        ensures
            r == Self::spec_signer(),
    {
        AbilitySet { has_copy: false, has_drop: true, has_store: false, has_key: false }
    }

    /// The declared base ability set of the built-in vector type constructor.
    pub open spec fn spec_vector() -> AbilitySet {
        AbilitySet { has_copy: true, has_drop: true, has_store: true, has_key: false }
    }

    #[verifier::when_used_as_spec(spec_vector)]
    pub fn vector() -> (r: AbilitySet)
        ensures
            r == Self::spec_vector(),
    {
        AbilitySet { has_copy: true, has_drop: true, has_store: true, has_key: false }
    }

    /// Set intersection.
    pub open spec fn spec_intersect(self, other: AbilitySet) -> AbilitySet {
        AbilitySet {
            has_copy: self.has_copy && other.has_copy,
            has_drop: self.has_drop && other.has_drop,
            has_store: self.has_store && other.has_store,
            has_key: self.has_key && other.has_key,
        }
    }

    #[verifier::when_used_as_spec(spec_intersect)]
    pub fn intersect(self, other: AbilitySet) -> (r: AbilitySet)
        ensures
            r == self.spec_intersect(other),
    {
        AbilitySet {
            has_copy: self.has_copy && other.has_copy,
            has_drop: self.has_drop && other.has_drop,
            has_store: self.has_store && other.has_store,
            has_key: self.has_key && other.has_key,
        }
    }

    /// Set inclusion.
    pub open spec fn spec_subset_of(self, other: AbilitySet) -> bool {
        &&& self.has_copy ==> other.has_copy
        &&& self.has_drop ==> other.has_drop
        &&& self.has_store ==> other.has_store
        &&& self.has_key ==> other.has_key
    }

    #[verifier::when_used_as_spec(spec_subset_of)]
    pub fn subset_of(self, other: AbilitySet) -> (r: bool)
        ensures
            r == self.spec_subset_of(other),
    {
        (!self.has_copy || other.has_copy) && (!self.has_drop || other.has_drop)
            && (!self.has_store || other.has_store) && (!self.has_key || other.has_key)
    }

    /// The ability set of an instantiated generic type constructor: an
    /// ability survives into the result exactly when the constructor
    /// declares it and every type argument standing in a non-phantom
    /// position also carries it.  Phantom positions impose no constraint.
    pub open spec fn spec_polymorphic_abilities(
        declared_abilities: AbilitySet,
        declared_phantom_parameters: Seq<bool>,
        type_arguments: Seq<AbilitySet>,
    ) -> AbilitySet {
        AbilitySet {
            has_copy: declared_abilities.has_copy && (forall|k: int|
                0 <= k < declared_phantom_parameters.len() && !declared_phantom_parameters[k]
                    ==> #[trigger] type_arguments[k].has_copy),
            has_drop: declared_abilities.has_drop && (forall|k: int|
                0 <= k < declared_phantom_parameters.len() && !declared_phantom_parameters[k]
                    ==> #[trigger] type_arguments[k].has_drop),
            has_store: declared_abilities.has_store && (forall|k: int|
                0 <= k < declared_phantom_parameters.len() && !declared_phantom_parameters[k]
                    ==> #[trigger] type_arguments[k].has_store),
            has_key: declared_abilities.has_key && (forall|k: int|
                0 <= k < declared_phantom_parameters.len() && !declared_phantom_parameters[k]
                    ==> #[trigger] type_arguments[k].has_key),
        }
    }

    /// Computes the ability set of an instantiated generic type constructor
    /// from its declared base set, its per-parameter phantom flags, and the
    /// ability sets already computed for its type arguments.
    ///
    /// The two sequences must have the same length: the arity of the
    /// instantiation must match the declared arity.  A mismatch is a
    /// recoverable validation error, because argument lists originate from
    /// instantiation sites that have not yet been validated.
    pub fn polymorphic_abilities(
        declared_abilities: AbilitySet,
        declared_phantom_parameters: &[bool],
        type_arguments: &[AbilitySet],
    ) -> (r: PartialVMResult<AbilitySet>)
        ensures
            declared_phantom_parameters@.len() == type_arguments@.len() ==> r
                == Ok::<AbilitySet, PartialVMError>(Self::spec_polymorphic_abilities(
                declared_abilities,
                declared_phantom_parameters@,
                type_arguments@,
            )),
            declared_phantom_parameters@.len() != type_arguments@.len() ==> r
                == Err::<AbilitySet, PartialVMError>(arity_mismatch_error()),
    {
        if declared_phantom_parameters.len() != type_arguments.len() {
            return Err(PartialVMError::new(StatusCode::NumberOfTypeArgumentsMismatch));
        }
        let n = type_arguments.len();
        let mut acc = declared_abilities;
        let mut i: usize = 0;
        while i < n
            invariant
                0 <= i <= n,
                n == type_arguments@.len(),
                n == declared_phantom_parameters@.len(),
                acc.has_copy == (declared_abilities.has_copy && (forall|k: int|
                    0 <= k < i && !declared_phantom_parameters@[k]
                        ==> #[trigger] type_arguments@[k].has_copy)),
                acc.has_drop == (declared_abilities.has_drop && (forall|k: int|
                    0 <= k < i && !declared_phantom_parameters@[k]
                        ==> #[trigger] type_arguments@[k].has_drop)),
                acc.has_store == (declared_abilities.has_store && (forall|k: int|
                    0 <= k < i && !declared_phantom_parameters@[k]
                        ==> #[trigger] type_arguments@[k].has_store)),
                acc.has_key == (declared_abilities.has_key && (forall|k: int|
                    0 <= k < i && !declared_phantom_parameters@[k]
                        ==> #[trigger] type_arguments@[k].has_key)),
            decreases n - i,
        {
            if !declared_phantom_parameters[i] {
                acc = acc.intersect(type_arguments[i]);
            }
            i = i + 1;
        }
        Ok(acc)
    }
}

/// The declared set intersected pairwise with every argument set, left to
/// right.
pub open spec fn spec_intersect_all(declared: AbilitySet, args: Seq<AbilitySet>) -> AbilitySet
    decreases args,
{
    if args.len() == 0 {
        declared
    } else {
        spec_intersect_all(declared, args.drop_last()).spec_intersect(args.last())
    }
}

/// With no phantom positions, polymorphic composition is exactly the
/// declared set intersected pairwise with the ability set of every type
/// argument.
pub proof fn lemma_polymorphic_abilities_no_phantoms(
    declared: AbilitySet,
    phantoms: Seq<bool>,
    args: Seq<AbilitySet>,
)
    requires
        phantoms.len() == args.len(),
        forall|k: int| 0 <= k < phantoms.len() ==> !phantoms[k],
    ensures
        AbilitySet::spec_polymorphic_abilities(declared, phantoms, args) == spec_intersect_all(
            declared,
            args,
        ),
    decreases args,
{
    if args.len() == 0 {
        assert(AbilitySet::spec_polymorphic_abilities(declared, phantoms, args) =~= declared);
    } else {
        let n = args.len() as int;
        lemma_polymorphic_abilities_no_phantoms(declared, phantoms.drop_last(), args.drop_last());
        assert(forall|j: int| 0 <= j < n - 1 ==> args.drop_last()[j] == args[j]);
        assert(forall|j: int| 0 <= j < n - 1 ==> phantoms.drop_last()[j] == phantoms[j]);
        assert(args.last() == args[n - 1]);
        assert(AbilitySet::spec_polymorphic_abilities(declared, phantoms, args)
            =~= AbilitySet::spec_polymorphic_abilities(
            declared,
            phantoms.drop_last(),
            args.drop_last(),
        ).spec_intersect(args.last()));
    }
}

/// Varying the type argument standing in a phantom position never changes
/// the composed ability set.
pub proof fn lemma_polymorphic_abilities_phantom_irrelevant(
    declared: AbilitySet,
    phantoms: Seq<bool>,
    args1: Seq<AbilitySet>,
    args2: Seq<AbilitySet>,
    k: int,
)
    requires
        phantoms.len() == args1.len(),
        args2.len() == args1.len(),
        0 <= k < phantoms.len(),
        phantoms[k],
        forall|j: int| 0 <= j < args1.len() && j != k ==> args1[j] == args2[j],
    ensures
        AbilitySet::spec_polymorphic_abilities(declared, phantoms, args1)
            == AbilitySet::spec_polymorphic_abilities(declared, phantoms, args2),
{
    assert(forall|j: int|
        0 <= j < phantoms.len() && !phantoms[j] ==> args1[j] == #[trigger] args2[j]);
    assert(AbilitySet::spec_polymorphic_abilities(declared, phantoms, args1)
        =~= AbilitySet::spec_polymorphic_abilities(declared, phantoms, args2));
}

} // verus!

