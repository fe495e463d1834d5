use vstd::prelude::*;
use crate::backend::ReplyView;
use crate::error::StoreErrorView;
use crate::evolve::{in_phase, next_progress, statements_left, Phase, SetCallView, SetProgressView};
use crate::model::{after, answer, command_of, has_column, reply_agrees, Backend};
use crate::table::is_reserved_name;

verus! {

/// One of several field writes that go on at the same time: still under
/// way, or over with its result.
pub enum Slot {
    Running(SetCallView),
    Finished(Result<i64, StoreErrorView>),
}

/// The backend together with the field writes that share it, and the
/// number of columns that were added so far.
pub struct World {
    pub backend: Backend,
    pub slots: Seq<Slot>,
    pub columns_added: nat,
}

/// One step of the whole: the backend executes the statement that one of
/// the writes has in flight, as a whole, and gives it this reply.
pub struct Event {
    pub slot: int,
    pub reply: ReplyView,
}

/// All the writes at their start.
pub open spec fn all_running(calls: Seq<SetCallView>) -> Seq<Slot> {
    Seq::new(calls.len(), |i: int| Slot::Running(calls[i]))
}

/// The world before any of the writes has sent a statement.
pub open spec fn initial_world(b: Backend, calls: Seq<SetCallView>) -> World {
    World { backend: b, slots: all_running(calls), columns_added: 0 }
}

/// The event can happen: its write is under way and the reply is one the
/// backend may give to the statement in flight.
pub open spec fn enabled(w: World, e: Event) -> bool {
    &&& 0 <= e.slot < w.slots.len()
    &&& w.slots[e.slot] matches Slot::Running(call)
    &&& reply_agrees(e.reply, answer(w.backend, command_of(call)))
}

/// Where a write stands after a reply.
pub open spec fn slot_after(call: SetCallView, reply: ReplyView) -> Slot {
    match next_progress(call, reply) {
        SetProgressView::Continue(next) => Slot::Running(next),
        SetProgressView::Finished(result) => Slot::Finished(result),
    }
}

/// The world after an event.
pub open spec fn step(w: World, e: Event) -> World {
    let call = w.slots[e.slot]->Running_0;
    let command = command_of(call);
    World {
        backend: after(w.backend, command),
        slots: w.slots.update(e.slot, slot_after(call, e.reply)),
        columns_added: if call.phase == Phase::AddColumn && answer(w.backend, command) is Executed {
            w.columns_added + 1
        } else {
            w.columns_added
        },
    }
}

/// The world after a list of events.
pub open spec fn run_schedule(w: World, events: Seq<Event>) -> World
    decreases events.len(),
{
    if events.len() == 0 {
        w
    } else {
        step(run_schedule(w, events.drop_last()), events.last())
    }
}

/// Each event of the list can happen when its turn comes. The order of the
/// events is free: the writes interleave in any way.
pub open spec fn is_schedule(w: World, events: Seq<Event>) -> bool
    decreases events.len(),
{
    events.len() == 0 || (is_schedule(w, events.drop_last()) && enabled(
        run_schedule(w, events.drop_last()),
        events.last(),
    ))
}

/// How many statements a write may still execute.
pub open spec fn slot_weight(slot: Slot) -> nat {
    match slot {
        Slot::Running(call) => statements_left(call.phase),
        Slot::Finished(_) => 0,
    }
}

/// How many statements all the writes together may still execute.
pub open spec fn statements_pending(slots: Seq<Slot>) -> nat
    decreases slots.len(),
{
    if slots.len() == 0 {
        0
    } else {
        statements_pending(slots.drop_last()) + slot_weight(slots.last())
    }
}

/// The writes all begin with their first attempt and all name the field
/// `key`, which is no reserved column.
pub open spec fn first_use_of(calls: Seq<SetCallView>, key: Seq<char>) -> bool {
    &&& !is_reserved_name(key)
    &&& forall|i: int|
        0 <= i < calls.len() ==> (#[trigger] calls[i]).phase == Phase::Update && calls[i].key
            == key
}

/// No other write goes to the run of the write `i`.
pub open spec fn alone_on_its_run(calls: Seq<SetCallView>, i: int) -> bool {
    forall|j: int| 0 <= j < calls.len() && j != i ==> (#[trigger] calls[j]).run != calls[i].run
}

/// What holds of one write at every moment.
pub open spec fn slot_is_safe(w: World, calls: Seq<SetCallView>, key: Seq<char>, i: int) -> bool {
    match w.slots[i] {
        Slot::Running(call) => {
            &&& call == in_phase(calls[i], call.phase)
            &&& call.phase == Phase::Retry ==> has_column(w.backend, key)
        },
        Slot::Finished(result) => {
            &&& result is Ok
            &&& has_column(w.backend, key)
            &&& alone_on_its_run(calls, i) && w.backend.rows.dom().contains(calls[i].run)
                ==> w.backend.rows[calls[i].run].dom().contains(key)
                && w.backend.rows[calls[i].run][key] == calls[i].value
        },
    }
}

/// What holds of the world at every moment of a schedule that began with
/// the column missing.
pub open spec fn world_is_safe(
    w: World,
    start: Backend,
    calls: Seq<SetCallView>,
    key: Seq<char>,
) -> bool {
    &&& w.backend.created
    &&& w.slots.len() == calls.len()
    &&& w.backend.rows.dom() == start.rows.dom()
    &&& w.columns_added <= 1
    &&& w.columns_added == 1 <==> has_column(w.backend, key)
    &&& forall|i: int| 0 <= i < calls.len() ==> #[trigger] slot_is_safe(w, calls, key, i)
}

proof fn lemma_pending_at_start(calls: Seq<SetCallView>)
    requires
        forall|i: int| 0 <= i < calls.len() ==> (#[trigger] calls[i]).phase == Phase::Update,
    ensures
        statements_pending(all_running(calls)) == 3 * calls.len(),
    decreases calls.len(),
{
    if calls.len() > 0 {
        assert(all_running(calls).drop_last() =~= all_running(calls.drop_last()));
        assert(all_running(calls).last() == Slot::Running(calls[calls.len() - 1]));
        lemma_pending_at_start(calls.drop_last());
    }
}

proof fn lemma_pending_after_update(slots: Seq<Slot>, i: int, slot: Slot)
    requires
        0 <= i < slots.len(),
    ensures
        statements_pending(slots.update(i, slot)) + slot_weight(slots[i]) == statements_pending(
            slots,
        ) + slot_weight(slot),
    decreases slots.len(),
{
    if i == slots.len() - 1 {
        assert(slots.update(i, slot).drop_last() =~= slots.drop_last());
    } else {
        assert(slots.update(i, slot).drop_last() =~= slots.drop_last().update(i, slot));
        lemma_pending_after_update(slots.drop_last(), i, slot);
    }
}

proof fn lemma_step_is_safe(
    w: World,
    e: Event,
    start: Backend,
    calls: Seq<SetCallView>,
    key: Seq<char>,
)
    requires
        first_use_of(calls, key),
        world_is_safe(w, start, calls, key),
        enabled(w, e),
    ensures
        world_is_safe(step(w, e), start, calls, key),
        statements_pending(step(w, e).slots) < statements_pending(w.slots),
{
    let call = w.slots[e.slot]->Running_0;
    let command = command_of(call);
    let next = step(w, e);
    assert(slot_is_safe(w, calls, key, e.slot));
    assert(call.key == key && call.run == calls[e.slot].run && call.value == calls[e.slot].value);
    lemma_pending_after_update(w.slots, e.slot, slot_after(call, e.reply));
    assert(next.backend.rows.dom() =~= start.rows.dom());
    assert forall|i: int| 0 <= i < calls.len() implies #[trigger] slot_is_safe(
        next,
        calls,
        key,
        i,
    ) by {
        assert(slot_is_safe(w, calls, key, i));
        if i == e.slot {
            reveal_strlit("last_modified");
            reveal_strlit("run_id");
            reveal_strlit("created_at");
            reveal_strlit("completed_at");
        } else {
            if alone_on_its_run(calls, i) {
                assert(calls[e.slot].run != calls[i].run);
            }
        }
    }
}

proof fn lemma_schedule_is_safe(
    start: Backend,
    calls: Seq<SetCallView>,
    key: Seq<char>,
    events: Seq<Event>,
)
    requires
        start.created,
        !has_column(start, key),
        first_use_of(calls, key),
        is_schedule(initial_world(start, calls), events),
    ensures
        world_is_safe(run_schedule(initial_world(start, calls), events), start, calls, key),
        events.len() + statements_pending(run_schedule(initial_world(start, calls), events).slots)
            <= 3 * calls.len(),
    decreases events.len(),
{
    let w0 = initial_world(start, calls);
    if events.len() == 0 {
        lemma_pending_at_start(calls);
        assert forall|i: int| 0 <= i < calls.len() implies #[trigger] slot_is_safe(
            w0,
            calls,
            key,
            i,
        ) by {
            assert(calls[i].phase == Phase::Update);
        }
    } else {
        lemma_schedule_is_safe(start, calls, key, events.drop_last());
        lemma_step_is_safe(run_schedule(w0, events.drop_last()), events.last(), start, calls, key);
    }
}

/// Writers that use a new field at the same time all succeed.
///
/// Take a table that lacks the column `key`, any number of field writes to
/// it that all begin together, and any order in which the backend executes
/// their statements one at a time. Then at every moment:
/// no write has failed; at most one column was added, and exactly one as
/// soon as any write is over or retries; the statements executed and those
/// still to come are no more than three for each write, so every write is
/// over after at most three statements of its own; and a write that is
/// over, and is the only one to its run, has left its value in the row of
/// that run.
pub proof fn concurrent_first_use_succeeds(
    start: Backend,
    calls: Seq<SetCallView>,
    key: Seq<char>,
    events: Seq<Event>,
)
    requires
        start.created,
        !has_column(start, key),
        first_use_of(calls, key),
        is_schedule(initial_world(start, calls), events),
    ensures
        ({
            let w = run_schedule(initial_world(start, calls), events);
            &&& w.slots.len() == calls.len()
            &&& w.columns_added <= 1
            &&& events.len() + statements_pending(w.slots) <= 3 * calls.len()
            &&& forall|i: int|
                0 <= i < calls.len() ==> match #[trigger] w.slots[i] {
                    Slot::Running(call) => call.phase == Phase::Retry ==> w.columns_added == 1,
                    Slot::Finished(result) => {
                        &&& result is Ok
                        &&& w.columns_added == 1
                        &&& alone_on_its_run(calls, i) && start.rows.dom().contains(calls[i].run)
                            ==> w.backend.rows[calls[i].run][key] == calls[i].value
                    },
                }
        }),
{
    lemma_schedule_is_safe(start, calls, key, events);
    let w = run_schedule(initial_world(start, calls), events);
    assert forall|i: int| 0 <= i < calls.len() implies match #[trigger] w.slots[i] {
        Slot::Running(call) => call.phase == Phase::Retry ==> w.columns_added == 1,
        Slot::Finished(result) => {
            &&& result is Ok
            &&& w.columns_added == 1
            &&& alone_on_its_run(calls, i) && start.rows.dom().contains(calls[i].run)
                ==> w.backend.rows[calls[i].run][key] == calls[i].value
        },
    } by {
        assert(slot_is_safe(w, calls, key, i));
    }
}

} // verus!
