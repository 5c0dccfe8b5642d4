use vstd::prelude::*;

use crate::ids::{TraitSet, TraitTypeId, ValueTypeId};

verus! {

/// Identity of one computation instance (a task).
#[derive(Clone, Copy, Debug, PartialEq, Eq, Structural, Hash)]
pub struct TaskId(pub u32);

/// Identity of one cell of a task: the declared value type of its content and
/// its position among the task's cells of that type.
#[derive(Clone, Copy, Debug, PartialEq, Eq, Structural, Hash)]
pub struct CellId {
    pub type_id: ValueTypeId,
    pub index: usize,
}

/// The opaque cell handle that every typed reference wraps.
///
/// Equality and hashing are by identity (which call, which cell), never by
/// the content the handle points to.
#[derive(Clone, Copy, Debug, PartialEq, Eq, Structural, Hash)]
pub enum RawVc {
    /// The pending result of a call made by the task `TaskId`; not yet pinned
    /// to a concrete cell.
    TaskOutput(TaskId),
    /// The pending result of a call local to one execution (execution, local
    /// task); meaningful only inside the computation that made it.
    LocalOutput(u32, u32),
    /// A concrete cell, with the capability-interfaces of its value type
    /// cached beside it.
    TaskCell(TaskId, CellId, TraitSet),
}

impl RawVc {
    /// The handle is pinned to a concrete cell.
    pub open spec fn is_resolved_spec(self) -> bool {
        self is TaskCell
    }

    /// The handle is a concrete cell whose value type implements `id`.
    pub open spec fn has_trait_spec(self, id: TraitTypeId) -> bool {
        match self {
            RawVc::TaskCell(_, _, traits) => traits.contains(id),
            _ => false,
        }
    }

    /// The handle is a concrete cell whose value type is `id`.
    pub open spec fn is_type_spec(self, id: ValueTypeId) -> bool {
        match self {
            RawVc::TaskCell(_, cell, _) => cell.type_id == id,
            _ => false,
        }
    }

    /// Whether the handle is pinned to a concrete cell.
    pub fn is_resolved(&self) -> (r: bool)
        ensures
            r == self.is_resolved_spec(),
    {
        match self {
            RawVc::TaskCell(..) => true,
            _ => false,
        }
    }

    /// Whether the handle is a concrete cell whose value type implements the
    /// interface `id`. Answered from the cached metadata alone.
    pub fn resolved_has_trait(&self, id: TraitTypeId) -> (r: bool)
        ensures
            r == self.has_trait_spec(id),
    {
        match self {
            RawVc::TaskCell(_, _, traits) => traits.has(id),
            _ => false,
        }
    }

    /// Whether the handle is a concrete cell whose value type is `id`.
    pub fn resolved_is_type(&self, id: ValueTypeId) -> (r: bool)
        ensures
            r == self.is_type_spec(id),
    {
        match self {
            RawVc::TaskCell(_, cell, _) => cell.type_id == id,
            _ => false,
        }
    }
}

} // verus!
