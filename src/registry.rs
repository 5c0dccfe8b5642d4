use vstd::prelude::*;

use crate::ids::{TraitTypeId, ValueTypeId};

verus! {

/// A concrete value type that cells can hold; it knows its registered
/// identity.
pub trait VcValueType {
    /// The registered identity of the type.
    spec fn value_type_id() -> ValueTypeId;

    fn get_value_type_id() -> (r: ValueTypeId)
        ensures
            r == Self::value_type_id(),
    ;
}

/// A capability-interface that references can be cast to; it knows its
/// registered identity.
pub trait VcValueTrait {
    /// The registered identity of the interface.
    spec fn trait_type_id() -> TraitTypeId;

    fn get_trait_type_id() -> (r: TraitTypeId)
        ensures
            r == Self::trait_type_id(),
    ;
}

/// Marks that every value of type `Self` statically implements the
/// capability `K`, which makes widening a reference to `K` unconditional.
pub trait Upcast<K: ?Sized> {

}

} // verus!
