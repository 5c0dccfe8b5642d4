use std::collections::hash_map::DefaultHasher;
use std::hash::{Hash, Hasher};

use turbo_tasks::ids::{TraitSet, TraitTypeId, ValueTypeId};
use turbo_tasks::raw::{CellId, RawVc, TaskId};
use turbo_tasks::registry::{Upcast, VcValueTrait, VcValueType};
use turbo_tasks::resolved::{ResolveTypeError, ResolvedVc};
use turbo_tasks::storage::CellStorage;
use turbo_tasks::trace::TraceRawVcsContext;
use turbo_tasks::vc::Vc;

// Outside Verus, the specification-level identity (`value_type_id`,
// `trait_type_id`) is an ordinary method; each impl gives it the same value as
// the executable one.

/// A transparent value type over an integer.
#[derive(Debug, Hash)]
struct Counter;

impl VcValueType for Counter {
    fn value_type_id() -> ValueTypeId {
        ValueTypeId(1)
    }

    fn get_value_type_id() -> ValueTypeId {
        ValueTypeId(1)
    }
}

/// Another concrete value type.
#[derive(Debug, Hash)]
struct Label;

impl VcValueType for Label {
    fn value_type_id() -> ValueTypeId {
        ValueTypeId(2)
    }

    fn get_value_type_id() -> ValueTypeId {
        ValueTypeId(2)
    }
}

/// An interface that `Counter` implements.
#[derive(Debug, Hash)]
struct DynShow;

impl VcValueTrait for DynShow {
    fn trait_type_id() -> TraitTypeId {
        TraitTypeId(3)
    }

    fn get_trait_type_id() -> TraitTypeId {
        TraitTypeId(3)
    }
}

/// A sub-interface of `DynShow` that `Counter` implements too.
#[derive(Debug, Hash)]
struct DynShowNumber;

impl VcValueTrait for DynShowNumber {
    fn trait_type_id() -> TraitTypeId {
        TraitTypeId(5)
    }

    fn get_trait_type_id() -> TraitTypeId {
        TraitTypeId(5)
    }
}

/// An interface that `Counter` does not implement.
#[derive(Debug, Hash)]
struct DynParse;

impl VcValueTrait for DynParse {
    fn trait_type_id() -> TraitTypeId {
        TraitTypeId(7)
    }

    fn get_trait_type_id() -> TraitTypeId {
        TraitTypeId(7)
    }
}

impl Upcast<DynShow> for Counter {}
impl Upcast<DynShowNumber> for Counter {}
impl Upcast<DynShow> for DynShowNumber {}
impl Upcast<DynShow> for Label {}
impl Upcast<DynShow> for DynParse {}

/// A value type that is stored as itself.
#[derive(Debug, Hash, PartialEq)]
struct Point(i32, i32);

impl VcValueType for Point {
    fn value_type_id() -> ValueTypeId {
        ValueTypeId(4)
    }

    fn get_value_type_id() -> ValueTypeId {
        ValueTypeId(4)
    }
}

fn counter_storage() -> CellStorage<u32> {
    let traits = TraitSet::empty().with(TraitTypeId(3)).with(TraitTypeId(5));
    CellStorage::new(TaskId(10), ValueTypeId(1), traits)
}

fn hash_of<T: Hash>(v: &T) -> u64 {
    let mut h = DefaultHasher::new();
    v.hash(&mut h);
    h.finish()
}

#[test]
fn cell_then_read_gives_payload() {
    let mut s = counter_storage();
    let a = ResolvedVc::<Counter>::cell(&mut s, 7u32);
    let b = ResolvedVc::<Counter>::cell(&mut s, 9u32);
    assert_eq!(a.read(&s), Some(&7));
    assert_eq!(b.read(&s), Some(&9));
    assert_eq!(s.len(), 2);
}

#[test]
fn cell_private_then_read_gives_value() {
    let mut s = CellStorage::new(TaskId(1), ValueTypeId(4), TraitSet::empty());
    let p = ResolvedVc::<Point>::cell_private(&mut s, Point(1, -2));
    assert_eq!(p.read(&s), Some(&Point(1, -2)));
}

#[test]
fn upcast_then_downcast_back_is_same_reference() {
    let mut s = counter_storage();
    let r = ResolvedVc::<Counter>::cell(&mut s, 1u32);
    let num: ResolvedVc<DynShowNumber> = ResolvedVc::upcast(r);
    let show: ResolvedVc<DynShow> = ResolvedVc::upcast(num);
    let back = ResolvedVc::try_downcast_sync::<DynShowNumber>(show);
    assert_eq!(back, Some(num));
    assert_eq!(back.unwrap().node(), r.node());
    let concrete = ResolvedVc::try_downcast_type_sync::<Counter>(show);
    assert_eq!(concrete, Some(r));
}

#[test]
fn resolve_is_identity() {
    let mut s = counter_storage();
    let r = ResolvedVc::<Counter>::cell(&mut s, 3u32);
    let once = r.to_resolved().unwrap();
    let twice = once.to_resolved().unwrap();
    assert_eq!(once, r);
    assert_eq!(twice, r);
    let vc: Vc<Counter> = r.resolve().unwrap();
    assert_eq!(vc.node(), r.node());
    assert_eq!(ResolvedVc::try_from_vc(vc), Some(r));
}

#[test]
fn sidecast_follows_capability_table() {
    let mut s = counter_storage();
    let r = ResolvedVc::<Counter>::cell(&mut s, 5u32);
    let show: ResolvedVc<DynShow> = ResolvedVc::upcast(r);
    let to_number = ResolvedVc::try_sidecast_sync::<DynShowNumber>(show);
    assert!(to_number.is_some());
    assert_eq!(to_number.unwrap().node(), r.node());
    let to_parse = ResolvedVc::try_sidecast_sync::<DynParse>(show);
    assert!(to_parse.is_none());
    assert_eq!(ResolvedVc::<DynShow>::try_sidecast_to::<DynParse>(show, TraitTypeId(7)), None);
    assert_eq!(ResolvedVc::<DynShow>::try_sidecast_to::<DynShow>(show, TraitTypeId(3)), Some(show));
    // An identity past the bitset's range is never recorded.
    assert_eq!(ResolvedVc::<DynShow>::try_sidecast_to::<DynParse>(show, TraitTypeId(64)), None);
    assert_eq!(ResolvedVc::try_downcast_type_sync::<Label>(show), None);
}

#[test]
fn fallible_casts_never_fail() {
    let mut s = counter_storage();
    let r = ResolvedVc::<Counter>::cell(&mut s, 5u32);
    let show: ResolvedVc<DynShow> = ResolvedVc::upcast(r);
    let side: Result<Option<ResolvedVc<DynShowNumber>>, ResolveTypeError> =
        ResolvedVc::try_sidecast(show);
    assert!(matches!(side, Ok(Some(_))));
    let miss: Result<Option<ResolvedVc<DynParse>>, ResolveTypeError> =
        ResolvedVc::try_sidecast(show);
    assert!(matches!(miss, Ok(None)));
    let down = ResolvedVc::try_downcast::<DynShowNumber>(show);
    assert!(matches!(down, Ok(Some(_))));
    assert_eq!(ResolvedVc::try_downcast_type::<Counter>(show), Ok(Some(r)));
    assert_eq!(ResolvedVc::try_downcast_type::<Label>(show), Ok(None));
}

#[test]
fn equality_is_by_cell_and_consistent_with_hash() {
    let mut s = counter_storage();
    let a = ResolvedVc::<Counter>::cell(&mut s, 1u32);
    let b = a;
    let c = a.clone();
    let other = ResolvedVc::<Counter>::cell(&mut s, 1u32);
    assert_eq!(a, a);
    assert_eq!(a, b);
    assert_eq!(b, a);
    assert_eq!(b, c);
    assert_eq!(a, c);
    assert_eq!(hash_of(&a), hash_of(&b));
    assert_eq!(hash_of(&a), hash_of(&c));
    // Equal content, distinct cells.
    assert_ne!(a, other);
    assert_eq!(a.read(&s), other.read(&s));
}

#[test]
fn equal_references_may_read_different_snapshots() {
    let mut s = counter_storage();
    let a = ResolvedVc::<Counter>::cell(&mut s, 1u32);
    let b = a;
    let before = *a.read(&s).unwrap();
    assert!(s.update(a.node(), 2u32));
    let after = *b.read(&s).unwrap();
    assert_eq!(a, b);
    assert_eq!(before, 1);
    assert_eq!(after, 2);
    assert_ne!(before, after);
}

#[test]
fn integer_cell_scenario() {
    let mut s = counter_storage();
    let r = ResolvedVc::<Counter>::cell(&mut s, 42u32);
    assert_eq!(r.read(&s), Some(&42));
    let i: ResolvedVc<DynShow> = ResolvedVc::upcast(r);
    let back = ResolvedVc::try_downcast_type_sync::<Counter>(i);
    assert!(back.is_some());
    assert_eq!(back.unwrap().read(&s), Some(&42));
    let j = ResolvedVc::try_sidecast_sync::<DynParse>(i);
    assert!(j.is_none());
}

#[test]
fn default_cells_are_distinct() {
    let mut s = counter_storage();
    let a = ResolvedVc::<Counter>::default_cell(&mut s);
    let b = ResolvedVc::<Counter>::default_cell(&mut s);
    assert_ne!(a, b);
    assert_eq!(a.read(&s), Some(&0));
    assert_eq!(b.read(&s), Some(&0));
}

#[test]
fn unresolved_handles_are_rejected() {
    let pending: Vc<Counter> = Vc::from_raw(RawVc::TaskOutput(TaskId(4)));
    assert_eq!(ResolvedVc::try_from_vc(pending), None);
    let local: Vc<Counter> = Vc::from_raw(RawVc::LocalOutput(1, 2));
    assert_eq!(ResolvedVc::try_from_vc(local), None);
    assert!(!RawVc::TaskOutput(TaskId(4)).is_resolved());
    assert!(!RawVc::TaskOutput(TaskId(4)).resolved_has_trait(TraitTypeId(3)));
    assert!(!RawVc::LocalOutput(1, 2).resolved_is_type(ValueTypeId(1)));
}

#[test]
fn foreign_handles_read_nothing() {
    let mut s = counter_storage();
    let _ = ResolvedVc::<Counter>::cell(&mut s, 1u32);
    let other_task = RawVc::TaskCell(
        TaskId(11),
        CellId { type_id: ValueTypeId(1), index: 0 },
        TraitSet::empty(),
    );
    let past_end = RawVc::TaskCell(
        TaskId(10),
        CellId { type_id: ValueTypeId(1), index: 1 },
        TraitSet::empty(),
    );
    assert_eq!(s.read(other_task), None);
    assert_eq!(s.read(past_end), None);
    assert_eq!(s.read(RawVc::TaskOutput(TaskId(10))), None);
    assert!(!s.update(past_end, 3));
    assert_eq!(s.len(), 1);
}

#[test]
fn trait_set_membership() {
    let empty = TraitSet::empty();
    assert!(!empty.has(TraitTypeId(0)));
    let set = empty.with(TraitTypeId(0)).with(TraitTypeId(63));
    assert!(set.has(TraitTypeId(0)));
    assert!(set.has(TraitTypeId(63)));
    assert!(!set.has(TraitTypeId(1)));
    assert!(!set.has(TraitTypeId(64)));
    assert_eq!(set.with(TraitTypeId(0)), set);
}

#[test]
fn handle_queries_read_cached_metadata() {
    let node = RawVc::TaskCell(
        TaskId(2),
        CellId { type_id: ValueTypeId(9), index: 4 },
        TraitSet::empty().with(TraitTypeId(12)),
    );
    assert!(node.is_resolved());
    assert!(node.resolved_has_trait(TraitTypeId(12)));
    assert!(!node.resolved_has_trait(TraitTypeId(13)));
    assert!(node.resolved_is_type(ValueTypeId(9)));
    assert!(!node.resolved_is_type(ValueTypeId(8)));
}

#[test]
fn tracing_reports_handles_in_order() {
    let mut s = counter_storage();
    let a = ResolvedVc::<Counter>::cell(&mut s, 1u32);
    let b = ResolvedVc::<Counter>::cell(&mut s, 2u32);
    let pending: Vc<Counter> = Vc::from_raw(RawVc::TaskOutput(TaskId(8)));
    let mut ctx = TraceRawVcsContext::new();
    a.trace_raw_vcs(&mut ctx);
    pending.trace_raw_vcs(&mut ctx);
    b.trace_raw_vcs(&mut ctx);
    assert_eq!(ctx.into_vec(), vec![a.node(), RawVc::TaskOutput(TaskId(8)), b.node()]);
}

#[test]
fn new_cells_carry_storage_identity() {
    let mut s = counter_storage();
    let _ = ResolvedVc::<Counter>::cell(&mut s, 1u32);
    let r = ResolvedVc::<Counter>::cell(&mut s, 2u32);
    let expected = RawVc::TaskCell(
        TaskId(10),
        CellId { type_id: ValueTypeId(1), index: 1 },
        TraitSet::empty().with(TraitTypeId(3)).with(TraitTypeId(5)),
    );
    assert_eq!(r.node(), expected);
    assert_eq!(r.as_vc().node(), expected);
    assert_eq!((*r).node(), expected);
}
