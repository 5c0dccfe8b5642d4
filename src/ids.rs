use vstd::prelude::*;

verus! {

/// Process-wide identity of a concrete value type.
#[derive(Clone, Copy, Debug, PartialEq, Eq, Structural, Hash)]
pub struct ValueTypeId(pub u32);

/// Process-wide identity of a capability-interface (a value trait).
#[derive(Clone, Copy, Debug, PartialEq, Eq, Structural, Hash)]
pub struct TraitTypeId(pub u32);

/// Number of distinct capability-interfaces a [`TraitSet`] can record.
pub const MAX_TRAITS: u32 = 64;

/// The capability-interfaces implemented by one concrete value type, as a
/// bitset indexed by [`TraitTypeId`]. This is the metadata a resolved handle
/// caches so that casts never have to read the cell's content.
#[derive(Clone, Copy, Debug, PartialEq, Eq, Structural, Hash)]
pub struct TraitSet {
    bits: u64,
}

/// Whether bit `k` of `bits` is set.
pub open spec fn bit_set(bits: u64, k: u32) -> bool {
    k < 64 && (bits >> k) & 1u64 == 1u64
}

impl TraitSet {
    /// The interfaces recorded in the set.
    pub closed spec fn contains(self, id: TraitTypeId) -> bool {
        bit_set(self.bits, id.0)
    }

    /// A set that records no interface.
    pub fn empty() -> (r: TraitSet)
        ensures
            forall|id: TraitTypeId| !#[trigger] r.contains(id),
    {
        let r = TraitSet { bits: 0 };
        assert forall|id: TraitTypeId| !#[trigger] r.contains(id) by {
            let k = id.0;
            if k < 64 {
                assert((0u64 >> k) & 1u64 == 0u64) by (bit_vector);
            }
        }
        r
    }

    /// The same set with the interface `id` added.
    pub fn with(self, id: TraitTypeId) -> (r: TraitSet)
        requires
            id.0 < MAX_TRAITS,
        ensures
            forall|j: TraitTypeId| #[trigger] r.contains(j) <==> (j == id || self.contains(j)),
    {
        let k = id.0;
        let r = TraitSet { bits: self.bits | (1u64 << k) };
        assert forall|j: TraitTypeId| #[trigger] r.contains(j) <==> (j == id || self.contains(j)) by {
            let b = self.bits;
            let m = j.0;
            if m < 64 {
                assert(((b | (1u64 << k)) >> m) & 1u64 == 1u64 <==> (m == k || (b >> m) & 1u64
                    == 1u64)) by (bit_vector)
                    requires
                        k < 64,
                        m < 64,
                ;
            }
        }
        r
    }

    /// Whether the interface `id` is recorded in the set.
    pub fn has(&self, id: TraitTypeId) -> (r: bool)
        ensures
            r == self.contains(id),
    {
        if id.0 < MAX_TRAITS {
            (self.bits >> id.0) & 1u64 == 1u64
        } else {
            false
        }
    }
}

} // verus!
