//! A model of a slot as a sequence of operations, and the laws that hold of it.

use std::sync::Arc;

use vstd::prelude::*;

verus! {

/// Whether a call of `get_or_init` on a slot holding `cell` runs its factory.
pub open spec fn runs_factory<T: ?Sized>(cell: Option<Arc<T>>) -> bool {
    cell is None
}

/// The handle that `get_or_init` hands out from a slot holding `cell`, where
/// `fresh` is what its factory produces.
pub open spec fn served<T: ?Sized>(cell: Option<Arc<T>>, fresh: Arc<T>) -> Arc<T> {
    match cell {
        Some(v) => v,
        None => fresh,
    }
}

/// One operation on a slot, as a model for reasoning about runs of calls.
pub enum SlotOp<T: ?Sized> {
    /// A `get_or_init` call whose factory would produce the handle given.
    GetOrInit(Arc<T>),
    /// A `set` call with the handle given.
    Install(Arc<T>),
    /// A `clear` call.
    Reset,
}

/// What the slot holds after `op`, starting from `cell`.
pub open spec fn apply<T: ?Sized>(cell: Option<Arc<T>>, op: SlotOp<T>) -> Option<Arc<T>> {
    match op {
        SlotOp::GetOrInit(fresh) => Some(served(cell, fresh)),
        SlotOp::Install(v) => Some(v),
        SlotOp::Reset => None,
    }
}

/// What the slot holds after the operations `ops` in turn, starting from `cell`.
pub open spec fn after<T: ?Sized>(cell: Option<Arc<T>>, ops: Seq<SlotOp<T>>) -> Option<Arc<T>>
    decreases ops.len(),
{
    if ops.len() == 0 {
        cell
    } else {
        after(apply(cell, ops[0]), ops.drop_first())
    }
}

/// How many factories run during the operations `ops`, starting from `cell`.
pub open spec fn factory_runs<T: ?Sized>(cell: Option<Arc<T>>, ops: Seq<SlotOp<T>>) -> nat
    decreases ops.len(),
{
    if ops.len() == 0 {
        0
    } else {
        let here: nat = if ops[0] is GetOrInit && runs_factory(cell) {
            1
        } else {
            0
        };
        here + factory_runs(apply(cell, ops[0]), ops.drop_first())
    }
}

/// The handles that the `get_or_init` calls among `ops` return, in order,
/// starting from `cell`.
pub open spec fn handed_out<T: ?Sized>(cell: Option<Arc<T>>, ops: Seq<SlotOp<T>>) -> Seq<Arc<T>>
    decreases ops.len(),
{
    if ops.len() == 0 {
        Seq::empty()
    } else {
        let rest = handed_out(apply(cell, ops[0]), ops.drop_first());
        match ops[0] {
            SlotOp::GetOrInit(fresh) => seq![served(cell, fresh)] + rest,
            _ => rest,
        }
    }
}

/// A run of `get_or_init` calls whose factories would produce `fresh`, in order.
pub open spec fn gets<T: ?Sized>(fresh: Seq<Arc<T>>) -> Seq<SlotOp<T>> {
    fresh.map_values(|x: Arc<T>| SlotOp::GetOrInit(x))
}

/// On a slot holding `v`, any run of `get_or_init` calls runs no factory,
/// hands out `v` to every caller and leaves `v` in place.
pub proof fn lemma_idempotent_reads<T: ?Sized>(v: Arc<T>, fresh: Seq<Arc<T>>)
    ensures
        factory_runs(Some(v), gets(fresh)) == 0,
        handed_out(Some(v), gets(fresh)).len() == fresh.len(),
        forall|i: int|
            0 <= i < fresh.len() ==> #[trigger] handed_out(Some(v), gets(fresh))[i] == v,
        after(Some(v), gets(fresh)) == Some(v),
    decreases fresh.len(),
{
    if fresh.len() > 0 {
        assert(gets(fresh).drop_first() =~= gets(fresh.drop_first()));
        lemma_idempotent_reads(v, fresh.drop_first());
        let rest = handed_out(Some(v), gets(fresh.drop_first()));
        assert forall|i: int| 0 <= i < fresh.len() implies #[trigger] handed_out(
            Some(v),
            gets(fresh),
        )[i] == v by {
            if i > 0 {
                assert(handed_out(Some(v), gets(fresh))[i] == rest[i - 1]);
            }
        }
    }
}

/// However many `get_or_init` calls an empty slot takes, in whatever order
/// they reach it, exactly one factory runs and every caller gets the handle
/// of the first.
pub proof fn lemma_single_init<T: ?Sized>(fresh: Seq<Arc<T>>)
    requires
        fresh.len() > 0,
    ensures
        factory_runs(None, gets(fresh)) == 1,
        handed_out(None, gets(fresh)).len() == fresh.len(),
        forall|i: int|
            0 <= i < fresh.len() ==> #[trigger] handed_out(None, gets(fresh))[i] == fresh[0],
        after(None, gets(fresh)) == Some(fresh[0]),
{
    assert(gets(fresh).drop_first() =~= gets(fresh.drop_first()));
    lemma_idempotent_reads(fresh[0], fresh.drop_first());
    let rest = handed_out(Some(fresh[0]), gets(fresh.drop_first()));
    assert forall|i: int| 0 <= i < fresh.len() implies #[trigger] handed_out(None, gets(fresh))[i]
        == fresh[0] by {
        if i > 0 {
            assert(handed_out(None, gets(fresh))[i] == rest[i - 1]);
        }
    }
}

/// After `set(v)`, whatever the slot held before, every later `get_or_init`
/// returns `v` and runs no factory, and the slot keeps `v`.
pub proof fn lemma_override_wins<T: ?Sized>(
    cell: Option<Arc<T>>,
    v: Arc<T>,
    fresh: Seq<Arc<T>>,
)
    ensures
        factory_runs(cell, seq![SlotOp::Install(v)] + gets(fresh)) == 0,
        handed_out(cell, seq![SlotOp::Install(v)] + gets(fresh)).len() == fresh.len(),
        forall|i: int|
            0 <= i < fresh.len() ==> #[trigger] handed_out(
                cell,
                seq![SlotOp::Install(v)] + gets(fresh),
            )[i] == v,
        after(cell, seq![SlotOp::Install(v)] + gets(fresh)) == Some(v),
{
    let ops = seq![SlotOp::Install(v)] + gets(fresh);
    assert(ops.drop_first() =~= gets(fresh));
    lemma_idempotent_reads(v, fresh);
}

/// After `clear()`, whatever the slot held before, the next `get_or_init`
/// runs its factory exactly once and every later call gets that handle.
pub proof fn lemma_clear_reinitializes<T: ?Sized>(cell: Option<Arc<T>>, fresh: Seq<Arc<T>>)
    requires
        fresh.len() > 0,
    ensures
        factory_runs(cell, seq![SlotOp::Reset] + gets(fresh)) == 1,
        handed_out(cell, seq![SlotOp::Reset] + gets(fresh)).len() == fresh.len(),
        forall|i: int|
            0 <= i < fresh.len() ==> #[trigger] handed_out(
                cell,
                seq![SlotOp::Reset] + gets(fresh),
            )[i] == fresh[0],
        after(cell, seq![SlotOp::Reset] + gets(fresh)) == Some(fresh[0]),
{
    let ops = seq![SlotOp::Reset] + gets(fresh);
    assert(ops.drop_first() =~= gets(fresh));
    lemma_single_init(fresh);
}

} // verus!
