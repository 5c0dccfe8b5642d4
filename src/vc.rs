use std::marker::PhantomData;

use vstd::prelude::*;

use crate::raw::RawVc;
use crate::registry::{Upcast, VcValueTrait};
use crate::trace::TraceRawVcsContext;

verus! {

/// A typed reference: an opaque handle annotated with the value type or
/// capability `T` it claims to point to. The handle may still be bound to the
/// running computation.
#[derive(Debug, Hash)]
pub struct Vc<T: ?Sized> {
    node: RawVc,
    _t: PhantomData<T>,
}

impl<T: ?Sized> Clone for Vc<T> {
    fn clone(&self) -> (r: Self)
        ensures
            r == *self,
    {
        *self
    }
}

impl<T: ?Sized> Copy for Vc<T> {

}

impl<T: ?Sized> View for Vc<T> {
    type V = RawVc;

    open spec fn view(&self) -> RawVc {
        self.spec_node()
    }
}

impl<T: ?Sized> Vc<T> {
    /// The wrapped handle.
    pub closed spec fn spec_node(self) -> RawVc {
        self.node
    }

    /// A reference of type `T` to the handle `node`.
    pub fn from_raw(node: RawVc) -> (r: Vc<T>)
        ensures
            r@ == node,
    {
        Vc { node, _t: PhantomData }
    }

    /// The wrapped handle.
    pub fn node(&self) -> (r: RawVc)
        ensures
            r == self@,
    {
        self.node
    }

    /// Widens the reference to the capability `K`, which `T` statically
    /// implements. The handle is kept as it is.
    pub fn upcast<K>(this: Self) -> (r: Vc<K>)
        where
            T: Upcast<K>,
            K: VcValueTrait + ?Sized,
        ensures
            r@ == this@,
    {
        Vc { node: this.node, _t: PhantomData }
    }

    /// Reports the wrapped handle to the tracing context.
    pub fn trace_raw_vcs(&self, trace_context: &mut TraceRawVcsContext)
        ensures
            final(trace_context)@ == old(trace_context)@.push(self@),
    {
        self.node.trace_raw_vcs(trace_context);
    }
}

} // verus!
