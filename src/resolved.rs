use std::marker::PhantomData;

use vstd::prelude::*;
use vstd::std_specs::cmp::PartialEqSpec;

use crate::ids::{TraitTypeId, ValueTypeId};
use crate::raw::RawVc;
use crate::registry::{Upcast, VcValueTrait, VcValueType};
use crate::storage::CellStorage;
use crate::trace::TraceRawVcsContext;
use crate::vc::Vc;

verus! {

/// The reserved failure of the fallible cast entry points. No cast produces
/// it today: deciding membership never has to read anything that can fail.
#[derive(Clone, Copy, Debug, PartialEq, Eq, Structural, Hash)]
pub enum ResolveTypeError {
    NoContent,
}

/// A typed reference that is pinned to one concrete, already materialized
/// cell.
///
/// Unlike [`Vc`], it never refers to state local to the running computation,
/// so it may be stored in memoized values and shared between computations.
/// Equality and hashing compare which cell is denoted, never its content: two
/// unequal references may read equal content, and two equal references read at
/// different times may see different snapshots if the cell was recomputed in
/// between.
#[derive(Debug, Hash)]
pub struct ResolvedVc<T: ?Sized> {
    node: Vc<T>,
}

/// The handle of a cast's result, if the cast succeeded.
pub open spec fn cast_view<K: ?Sized>(r: Option<ResolvedVc<K>>) -> Option<RawVc> {
    match r {
        Some(v) => Some(v@),
        None => None,
    }
}

/// The outcome of a sidecast of the handle `node` to the interface `id`: the
/// same handle where the cell's value type implements `id`.
pub open spec fn sidecast_spec(node: RawVc, id: TraitTypeId) -> Option<RawVc> {
    if node.has_trait_spec(id) {
        Some(node)
    } else {
        None
    }
}

/// The outcome of a downcast of the handle `node` to the value type `id`: the
/// same handle where the cell's value type is `id`.
pub open spec fn downcast_type_spec(node: RawVc, id: ValueTypeId) -> Option<RawVc> {
    if node.is_type_spec(id) {
        Some(node)
    } else {
        None
    }
}

impl<T: ?Sized> View for ResolvedVc<T> {
    type V = RawVc;

    open spec fn view(&self) -> RawVc {
        self.spec_vc()@
    }
}

impl<T: ?Sized> Clone for ResolvedVc<T> {
    fn clone(&self) -> (r: Self)
        ensures
            r == *self,
    {
        *self
    }
}

impl<T: ?Sized> Copy for ResolvedVc<T> {

}

impl<T: ?Sized> ResolvedVc<T> {
    /// The handle is always a concrete cell.
    #[verifier::type_invariant]
    spec fn inv(self) -> bool {
        self.node@.is_resolved_spec()
    }

    /// The wrapped typed reference.
    pub closed spec fn spec_vc(self) -> Vc<T> {
        self.node
    }

    /// What resolving an already resolved reference gives: the reference
    /// itself.
    pub open spec fn to_resolved_spec(self) -> Self {
        self
    }

    /// A reference of type `T` to the concrete cell `node`.
    fn from_node(node: RawVc) -> (r: Self)
        requires
            node.is_resolved_spec(),
        ensures
            r@ == node,
    {
        ResolvedVc { node: Vc::from_raw(node) }
    }

    /// The resolved reference wrapping `vc`, where its handle already denotes a
    /// concrete cell; `None` where it is still bound to a pending call.
    pub fn try_from_vc(vc: Vc<T>) -> (r: Option<Self>)
        ensures
            r is Some <==> vc@.is_resolved_spec(),
            r matches Some(v) ==> v@ == vc@,
    {
        let node = vc.node();
        if node.is_resolved() {
            Some(Self::from_node(node))
        } else {
            None
        }
    }

    /// Resolving a reference that is already resolved: the reference itself.
    /// Generic code may call it; there is no point in doing so.
    pub fn to_resolved(self) -> (r: Result<Self, ResolveTypeError>)
        ensures
            r == Ok::<Self, ResolveTypeError>(self.to_resolved_spec()),
    {
        Ok(self)
    }

    /// The typed reference to the same cell; no resolution takes place.
    pub fn resolve(self) -> (r: Result<Vc<T>, ResolveTypeError>)
        ensures
            r matches Ok(v) && v@ == self@,
    {
        Ok(self.node)
    }

    /// The wrapped typed reference.
    pub fn as_vc(&self) -> (r: &Vc<T>)
        ensures
            r@ == self@,
    {
        &self.node
    }

    /// The wrapped handle.
    pub fn node(&self) -> (r: RawVc)
        ensures
            r == self@,
            r.is_resolved_spec(),
    {
        proof {
            use_type_invariant(self);
        }
        self.node.node()
    }

    /// Reports the wrapped handle to the tracing context; the cell's content
    /// is not visited.
    pub fn trace_raw_vcs(&self, trace_context: &mut TraceRawVcsContext)
        ensures
            final(trace_context)@ == old(trace_context)@.push(self@),
    {
        self.node.trace_raw_vcs(trace_context);
    }

    /// Reads a snapshot of the cell's current content from `storage`; `None`
    /// where the cell does not belong to it.
    pub fn read<'a, V>(&self, storage: &'a CellStorage<V>) -> (r: Option<&'a V>)
        ensures
            r is Some <==> storage.lookup(self@) is Some,
            r matches Some(v) ==> storage.lookup(self@) == Some(*v),
    {
        storage.read(self.node.node())
    }
}

impl<T: ?Sized> PartialEq for ResolvedVc<T> {
    /// Whether both references denote the same cell.
    fn eq(&self, other: &Self) -> (r: bool) {
        self.node.node() == other.node.node()
    }
}

impl<T: ?Sized> vstd::std_specs::cmp::PartialEqSpecImpl for ResolvedVc<T> {
    open spec fn obeys_eq_spec() -> bool {
        true
    }

    open spec fn eq_spec(&self, other: &Self) -> bool {
        self@ == other@
    }
}

impl<T: ?Sized> Eq for ResolvedVc<T> {

}

impl<T: ?Sized> std::ops::Deref for ResolvedVc<T> {
    type Target = Vc<T>;

    fn deref(&self) -> (r: &Vc<T>)
        ensures
            r@ == self@,
    {
        &self.node
    }
}

impl<T: VcValueType> ResolvedVc<T> {
    /// Creates a new cell in `storage`, whose cells are of the value type `T`,
    /// holding the value `inner` itself, and returns the reference to it.
    pub fn cell_private(storage: &mut CellStorage<T>, inner: T) -> (r: Self)
        requires
            old(storage).spec_value_type() == T::value_type_id(),
        ensures
            old(storage).cell_created(*final(storage), r@, inner),
            r@.is_type_spec(T::value_type_id()),
    {
        Self::from_node(storage.new_cell(inner))
    }

    /// Creates a new cell in `storage`, whose cells are of the transparent
    /// value type `T`, holding the payload `inner`, and returns the reference
    /// to it.
    pub fn cell<V>(storage: &mut CellStorage<V>, inner: V) -> (r: Self)
        requires
            old(storage).spec_value_type() == T::value_type_id(),
        ensures
            old(storage).cell_created(*final(storage), r@, inner),
            r@.is_type_spec(T::value_type_id()),
    {
        Self::from_node(storage.new_cell(inner))
    }

    /// Creates a new cell in `storage` holding the default payload. Every
    /// call allocates a cell of its own: there is no shared empty reference.
    pub fn default_cell<V: Default>(storage: &mut CellStorage<V>) -> (r: Self)
        requires
            old(storage).spec_value_type() == T::value_type_id(),
        ensures
            r@.is_type_spec(T::value_type_id()),
            exists|v: V|
                call_ensures(V::default, (), v) && old(storage).cell_created(
                    *final(storage),
                    r@,
                    v,
                ),
    {
        Self::cell(storage, V::default())
    }
}

impl<T: ?Sized> ResolvedVc<T> {
    /// Widens the reference to the capability `K`, which `T` statically
    /// implements. The handle, and so the cell, stay the same.
    pub fn upcast<K>(this: Self) -> (r: ResolvedVc<K>)
        where
            T: Upcast<K>,
            K: VcValueTrait + ?Sized,
        ensures
            r@ == this@,
    {
        proof {
            use_type_invariant(&this);
        }
        ResolvedVc { node: Vc::upcast(this.node) }
    }

    /// Reinterprets the reference as one to the interface `id`, where the
    /// cell's value type implements it. Consults only the metadata cached in
    /// the handle; the cell's content is never read.
    pub fn try_sidecast_to<K: ?Sized>(this: Self, id: TraitTypeId) -> (r: Option<ResolvedVc<K>>)
        ensures
            cast_view(r) == sidecast_spec(this@, id),
    {
        let node = this.node();
        if node.resolved_has_trait(id) {
            Some(ResolvedVc::from_node(node))
        } else {
            None
        }
    }

    /// Reinterprets the reference as one to the value type `id`, where that is
    /// the cell's value type. Consults only the metadata cached in the handle.
    pub fn try_downcast_to_type<K: ?Sized>(this: Self, id: ValueTypeId) -> (r: Option<
        ResolvedVc<K>,
    >)
        ensures
            cast_view(r) == downcast_type_spec(this@, id),
    {
        let node = this.node();
        if node.resolved_is_type(id) {
            Some(ResolvedVc::from_node(node))
        } else {
            None
        }
    }
}

impl<T: VcValueTrait + ?Sized> ResolvedVc<T> {
    /// Attempts to reinterpret a reference to the interface `T` as one to the
    /// interface `K`; `None` where the cell's value type does not implement
    /// `K`. Where it succeeds, the handle stays the same.
    pub fn try_sidecast_sync<K: VcValueTrait + ?Sized>(this: Self) -> (r: Option<ResolvedVc<K>>)
        ensures
            cast_view(r) == sidecast_spec(this@, K::trait_type_id()),
    {
        Self::try_sidecast_to(this, K::get_trait_type_id())
    }

    /// The fallible form of [`ResolvedVc::try_sidecast_sync`]; it never
    /// fails.
    pub fn try_sidecast<K: VcValueTrait + ?Sized>(this: Self) -> (r: Result<
        Option<ResolvedVc<K>>,
        ResolveTypeError,
    >)
        ensures
            r matches Ok(o) && cast_view(o) == sidecast_spec(this@, K::trait_type_id()),
    {
        Ok(Self::try_sidecast_sync(this))
    }

    /// Attempts to narrow a reference to the interface `T` to one to the
    /// sub-interface `K`; `None` where the cell's value type does not
    /// implement `K`. Where it succeeds, the handle stays the same.
    pub fn try_downcast_sync<K: Upcast<T> + VcValueTrait + ?Sized>(this: Self) -> (r: Option<
        ResolvedVc<K>,
    >)
        ensures
            cast_view(r) == sidecast_spec(this@, K::trait_type_id()),
    {
        Self::try_sidecast_sync(this)
    }

    /// The fallible form of [`ResolvedVc::try_downcast_sync`]; it never
    /// fails.
    pub fn try_downcast<K: Upcast<T> + VcValueTrait + ?Sized>(this: Self) -> (r: Result<
        Option<ResolvedVc<K>>,
        ResolveTypeError,
    >)
        ensures
            r matches Ok(o) && cast_view(o) == sidecast_spec(this@, K::trait_type_id()),
    {
        Ok(Self::try_downcast_sync(this))
    }

    /// Attempts to narrow a reference to the interface `T` to one to the
    /// concrete value type `K`; `None` where the cell's value type is not
    /// `K`. Where it succeeds, the handle stays the same.
    pub fn try_downcast_type_sync<K: Upcast<T> + VcValueType>(this: Self) -> (r: Option<
        ResolvedVc<K>,
    >)
        ensures
            cast_view(r) == downcast_type_spec(this@, K::value_type_id()),
    {
        Self::try_downcast_to_type(this, K::get_value_type_id())
    }

    /// The fallible form of [`ResolvedVc::try_downcast_type_sync`]; it never
    /// fails.
    pub fn try_downcast_type<K: Upcast<T> + VcValueType>(this: Self) -> (r: Result<
        Option<ResolvedVc<K>>,
        ResolveTypeError,
    >)
        ensures
            r matches Ok(o) && cast_view(o) == downcast_type_spec(this@, K::value_type_id()),
    {
        Ok(Self::try_downcast_type_sync(this))
    }
}

/// Widening a reference never changes its handle, so narrowing it back to an
/// interface that the cell's value type implements gives back a reference to
/// the same cell.
pub proof fn lemma_upcast_then_sidecast_back(node: RawVc, id: TraitTypeId)
    requires
        node.has_trait_spec(id),
    ensures
        sidecast_spec(node, id) == Some(node),
{
}

/// Narrowing a reference to the value type of its own cell gives back a
/// reference to the same cell.
pub proof fn lemma_downcast_to_own_type(node: RawVc, id: ValueTypeId)
    requires
        node.is_type_spec(id),
    ensures
        downcast_type_spec(node, id) == Some(node),
{
}

/// A sidecast or a downcast succeeds exactly where the cached metadata of
/// the handle says so, and what it returns is the same handle.
pub proof fn lemma_cast_outcomes(node: RawVc, t: TraitTypeId, v: ValueTypeId)
    ensures
        sidecast_spec(node, t) is Some <==> node.has_trait_spec(t),
        downcast_type_spec(node, v) is Some <==> node.is_type_spec(v),
        sidecast_spec(node, t) matches Some(n) ==> n == node,
        downcast_type_spec(node, v) matches Some(n) ==> n == node,
{
}

/// Resolving a resolved reference gives the reference itself, so doing it
/// twice gives it too.
pub proof fn lemma_resolve_idempotent<T: ?Sized>(r: ResolvedVc<T>)
    ensures
        r.to_resolved_spec() == r,
        r.to_resolved_spec().to_resolved_spec() == r,
{
}

/// Equality of resolved references is an equivalence, and equal references
/// wrap the same handle, which is all that their hash reads.
pub proof fn lemma_eq_equivalence<T: ?Sized>(a: ResolvedVc<T>, b: ResolvedVc<T>, c: ResolvedVc<T>)
    ensures
        a.eq_spec(&a),
        a.eq_spec(&b) ==> b.eq_spec(&a),
        a.eq_spec(&b) && b.eq_spec(&c) ==> a.eq_spec(&c),
        a.eq_spec(&b) ==> a@ == b@,
{
}

} // verus!
