use vstd::prelude::*;

use crate::raw::RawVc;

verus! {

/// Collects the handles reachable from a value, in the order they are
/// reported.
pub struct TraceRawVcsContext {
    list: Vec<RawVc>,
}

impl View for TraceRawVcsContext {
    type V = Seq<RawVc>;

    closed spec fn view(&self) -> Seq<RawVc> {
        self.list@
    }
}

impl TraceRawVcsContext {
    /// A context that has collected nothing yet.
    pub fn new() -> (r: Self)
        ensures
            r@ == Seq::<RawVc>::empty(),
    {
        TraceRawVcsContext { list: Vec::new() }
    }

    /// Records one reachable handle.
    pub fn add(&mut self, node: RawVc)
        ensures
            final(self)@ == old(self)@.push(node),
    {
        self.list.push(node);
    }

    /// The handles collected so far.
    pub fn into_vec(self) -> (r: Vec<RawVc>)
        ensures
            r@ == self@,
    {
        self.list
    }
}

impl RawVc {
    /// Reports this handle to the tracing context.
    pub fn trace_raw_vcs(&self, trace_context: &mut TraceRawVcsContext)
        ensures
            final(trace_context)@ == old(trace_context)@.push(*self),
    {
        trace_context.add(*self);
    }
}

} // verus!
