//! Properties of the store and its staleness gate across several steps.
use vstd::prelude::*;
use crate::param::{param_at, in_range};
use crate::store::{EngineSettings, ParamStore};

verus! {

/// The store after a sequence of writes `(index, bits)`, in order.
pub open spec fn after_writes(s: ParamStore, writes: Seq<(int, u32)>) -> ParamStore
    decreases writes.len(),
{
    if writes.len() == 0 {
        s
    } else {
        after_writes(s.after_set(writes[0].0, writes[0].1), writes.drop_first())
    }
}

/// The store after a reconciliation: same values, flag cleared.
pub open spec fn after_reconcile(s: ParamStore) -> ParamStore {
    ParamStore { stale: false, ..s }
}

/// What a reconciliation pushes into the engine: the settings when the flag
/// was raised, nothing otherwise.
pub open spec fn pushed(s: ParamStore) -> Option<EngineSettings> {
    if s.stale { Some(s.settings_spec()) } else { None }
}

/// Reading an index in 0..=3 after writing a value there gives that value
/// back, bit for bit.
pub proof fn lemma_set_get_round_trip(s: ParamStore, index: int, bits: u32)
    requires
        in_range(index),
    ensures
        s.after_set(index, bits).value_at(index) == bits,
{
}

/// An index outside 0..=3 reads as 0, a write there changes no value at any
/// index in range, and its name, label and text are all empty.
pub proof fn lemma_out_of_range(s: ParamStore, index: int, bits: u32, other: int)
    requires
        !in_range(index),
    ensures
        s.value_at(index) == 0,
        param_at(index).is_none(),
        s.after_set(index, bits).value_at(other) == s.value_at(other),
{
}

/// Any write, at any index and from either state, leaves the flag raised.
pub proof fn lemma_set_raises_flag(s: ParamStore, index: int, bits: u32)
    ensures
        s.after_set(index, bits).stale,
{
}

/// A reconciliation while fresh pushes nothing and changes nothing.
pub proof fn lemma_fresh_reconcile_is_noop(s: ParamStore)
    requires
        !s.stale,
    ensures
        pushed(s).is_none(),
        after_reconcile(s) == s,
{
}

/// After one or more writes, a reconciliation pushes exactly the values that
/// `get` reads at that moment, and leaves the flag cleared.
pub proof fn lemma_writes_then_reconcile(s: ParamStore, writes: Seq<(int, u32)>)
    requires
        writes.len() > 0,
    ensures
        ({
            let t = after_writes(s, writes);
            &&& pushed(t) == Some(EngineSettings {
                dry_wet: t.value_at(0),
                absorption: t.value_at(1),
                decay: t.value_at(2),
                size: t.value_at(3),
            })
            &&& !after_reconcile(t).stale
        }),
{
    lemma_writes_raise_flag(s, writes);
}

/// A non-empty sequence of writes leaves the flag raised.
proof fn lemma_writes_raise_flag(s: ParamStore, writes: Seq<(int, u32)>)
    requires
        writes.len() > 0,
    ensures
        after_writes(s, writes).stale,
    decreases writes.len(),
{
    let next = s.after_set(writes[0].0, writes[0].1);
    if writes.len() > 1 {
        lemma_writes_raise_flag(next, writes.drop_first());
    } else {
        assert(writes.drop_first().len() == 0);
        assert(after_writes(next, writes.drop_first()) == next);
    }
}

/// No write is lost to a reconciliation that runs beside it. A write that
/// lands before the flag is cleared is among the values the reconciliation
/// reads; a write that lands after it leaves the flag raised once the
/// reconciliation has read its values.
pub proof fn lemma_no_lost_write(s: ParamStore, index: int, bits: u32)
    requires
        in_range(index),
    ensures
        pushed(s.after_set(index, bits)).is_some(),
        pushed(s.after_set(index, bits)).unwrap() == s.after_set(index, bits).settings_spec(),
        s.after_set(index, bits).settings_spec() == after_reconcile(s.after_set(index, bits)).settings_spec(),
        after_reconcile(s.after_set(index, bits)).value_at(index) == bits,
        after_reconcile(s).after_set(index, bits).stale,
{
}

} // verus!
