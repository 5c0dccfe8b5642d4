use vstd::prelude::*;

use crate::ids::{TraitSet, ValueTypeId};
use crate::raw::{CellId, RawVc, TaskId};

verus! {

/// The cells of one task that hold values of one value type. Cells are
/// allocated one after another and never freed; recomputing a cell replaces
/// its content in place.
pub struct CellStorage<V> {
    task: TaskId,
    value_type: ValueTypeId,
    traits: TraitSet,
    cells: Vec<V>,
}

impl<V> View for CellStorage<V> {
    type V = Seq<V>;

    closed spec fn view(&self) -> Seq<V> {
        self.cells@
    }
}

impl<V> CellStorage<V> {
    /// The task that owns the cells.
    pub closed spec fn spec_task(self) -> TaskId {
        self.task
    }

    /// The value type of every cell.
    pub closed spec fn spec_value_type(self) -> ValueTypeId {
        self.value_type
    }

    /// The capability-interfaces of that value type.
    pub closed spec fn spec_traits(self) -> TraitSet {
        self.traits
    }

    /// The index of the cell that `node` denotes here, if it denotes one.
    pub open spec fn index_of(self, node: RawVc) -> Option<int> {
        match node {
            RawVc::TaskCell(task, cell, _) => if task == self.spec_task() && cell.type_id
                == self.spec_value_type() && cell.index < self@.len() {
                Some(cell.index as int)
            } else {
                None
            },
            _ => None,
        }
    }

    /// The content of the cell that `node` denotes, if it denotes one here.
    pub open spec fn lookup(self, node: RawVc) -> Option<V> {
        match self.index_of(node) {
            Some(i) => Some(self@[i]),
            None => None,
        }
    }

    /// `after` is `self` with one new cell holding `v`, denoted by `node`.
    pub open spec fn cell_created(self, after: Self, node: RawVc, v: V) -> bool {
        &&& after.spec_task() == self.spec_task()
        &&& after.spec_value_type() == self.spec_value_type()
        &&& after.spec_traits() == self.spec_traits()
        &&& after@ == self@.push(v)
        &&& node matches RawVc::TaskCell(task, cell, traits)
        &&& task == self.spec_task()
        &&& cell.type_id == self.spec_value_type()
        &&& cell.index == self@.len()
        &&& traits == self.spec_traits()
    }

    /// An empty storage for cells of the task `task` holding values of the
    /// type `value_type`, which implements the interfaces `traits`.
    pub fn new(task: TaskId, value_type: ValueTypeId, traits: TraitSet) -> (r: Self)
        ensures
            r.spec_task() == task,
            r.spec_value_type() == value_type,
            r.spec_traits() == traits,
            r@ == Seq::<V>::empty(),
    {
        CellStorage { task, value_type, traits, cells: Vec::new() }
    }

    /// The number of cells allocated so far.
    pub fn len(&self) -> (r: usize)
        ensures
            r == self@.len(),
    {
        self.cells.len()
    }

    /// Allocates a new cell holding `v` and returns its resolved handle.
    pub fn new_cell(&mut self, v: V) -> (node: RawVc)
        ensures
            old(self).cell_created(*final(self), node, v),
    {
        let index = self.cells.len();
        self.cells.push(v);
        RawVc::TaskCell(self.task, CellId { type_id: self.value_type, index }, self.traits)
    }

    /// The position among this storage's cells of the cell that `node`
    /// denotes, if it denotes one.
    fn find(&self, node: RawVc) -> (r: Option<usize>)
        ensures
            r matches Some(i) ==> self.index_of(node) == Some(i as int),
            r is None ==> self.index_of(node) is None,
    {
        match node {
            RawVc::TaskCell(task, cell, _) => {
                if task == self.task && cell.type_id == self.value_type && cell.index
                    < self.cells.len() {
                    Some(cell.index)
                } else {
                    None
                }
            },
            _ => None,
        }
    }

    /// Reads a snapshot of the content of the cell that `node` denotes;
    /// `None` where `node` denotes no cell of this storage.
    pub fn read(&self, node: RawVc) -> (r: Option<&V>)
        ensures
            r is Some <==> self.lookup(node) is Some,
            r matches Some(v) ==> self.lookup(node) == Some(*v),
    {
        match self.find(node) {
            Some(i) => Some(&self.cells[i]),
            None => None,
        }
    }

    /// Recomputes the cell that `node` denotes to the new content `v`. The
    /// handle keeps its identity. Returns whether `node` denotes a cell of
    /// this storage; where it does not, nothing changes.
    pub fn update(&mut self, node: RawVc, v: V) -> (r: bool)
        ensures
            r == old(self).index_of(node) is Some,
            final(self).spec_task() == old(self).spec_task(),
            final(self).spec_value_type() == old(self).spec_value_type(),
            final(self).spec_traits() == old(self).spec_traits(),
            r ==> final(self)@ == old(self)@.update(old(self).index_of(node)->0, v),
            !r ==> final(self)@ == old(self)@,
    {
        match self.find(node) {
            Some(i) => {
                self.cells.set(i, v);
                true
            },
            None => false,
        }
    }
}

/// Reading a cell right after it was created gives back the content it was
/// created with.
pub proof fn lemma_read_after_cell<V>(before: CellStorage<V>, after: CellStorage<V>, node: RawVc, v: V)
    requires
        before.cell_created(after, node, v),
    ensures
        after.lookup(node) == Some(v),
{
}

/// Recomputing a cell changes what its handle reads, while the handle itself,
/// and so every reference equal to it, stays the same: two reads of one
/// reference around the recomputation may differ.
pub proof fn lemma_read_after_update<V>(before: CellStorage<V>, after: CellStorage<V>, node: RawVc, v: V)
    requires
        before.index_of(node) is Some,
        after.spec_task() == before.spec_task(),
        after.spec_value_type() == before.spec_value_type(),
        after@ == before@.update(before.index_of(node)->0, v),
    ensures
        after.lookup(node) == Some(v),
        before.lookup(node) is Some,
{
}

} // verus!
