//! What holds of a data queue over any sequence of calls.

use vstd::prelude::*;

use futures::channel::oneshot;

use crate::dataqueue::{
    first_timestamp, time_apart, total_buffers, total_bytes, DataQueueState, DataQueueView,
};
use crate::item::DataQueueItem;
use crate::sums::lemma_sum_push;

verus! {

/// A call of one of the queue's operations.
pub enum QueueCall<B, L, E> {
    Start,
    Pause,
    Stop,
    Clear,
    Push(DataQueueItem<B, L, E>),
    /// With the sending half of the channel that is made where the consumer has to
    /// wait.
    Next(oneshot::Sender<()>),
}

impl<B, L, E> DataQueueView<B, L, E> {
    /// The call may be made on this queue.
    pub open spec fn allows(self, call: QueueCall<B, L, E>) -> bool {
        match call {
            QueueCall::Pause => self.state != DataQueueState::Stopped,
            QueueCall::Clear => self.state == DataQueueState::Paused,
            QueueCall::Push(item) => self.can_count(item),
            _ => true,
        }
    }

    /// The queue after the call.
    pub open spec fn after(self, call: QueueCall<B, L, E>) -> Self {
        match call {
            QueueCall::Start => self.switched(DataQueueState::Started),
            QueueCall::Pause => self.held(DataQueueState::Paused),
            QueueCall::Stop => self.switched(DataQueueState::Stopped),
            QueueCall::Clear => self.cleared(),
            QueueCall::Push(item) => if self.accepts(item) {
                self.pushed(item)
            } else {
                self
            },
            QueueCall::Next(sender) => if self.yields() {
                self.popped()
            } else if self.waits() {
                DataQueueView { wake_sender: Some(sender), ..self }
            } else {
                self
            },
        }
    }

    /// The items that the call puts into the queue.
    pub open spec fn entering(self, call: QueueCall<B, L, E>) -> Seq<DataQueueItem<B, L, E>> {
        match call {
            QueueCall::Push(item) if self.accepts(item) => seq![item],
            _ => Seq::empty(),
        }
    }

    /// The items that the call takes out of the queue, in order: the one handed to a
    /// consumer, or all that are thrown away.
    pub open spec fn leaving(self, call: QueueCall<B, L, E>) -> Seq<DataQueueItem<B, L, E>> {
        match call {
            QueueCall::Next(_) if self.yields() => seq![self.items.first()],
            QueueCall::Clear => self.items,
            _ => Seq::empty(),
        }
    }

    /// The queue after all calls, made one after the other.
    pub open spec fn after_all(self, calls: Seq<QueueCall<B, L, E>>) -> Self
        decreases calls.len(),
    {
        if calls.len() == 0 {
            self
        } else {
            self.after_all(calls.drop_last()).after(calls.last())
        }
    }

    /// Each of the calls may be made when its turn comes.
    pub open spec fn allows_all(self, calls: Seq<QueueCall<B, L, E>>) -> bool
        decreases calls.len(),
    {
        calls.len() == 0 || (self.allows_all(calls.drop_last()) && self.after_all(
            calls.drop_last(),
        ).allows(calls.last()))
    }

    /// The items that the calls put into the queue, in order.
    pub open spec fn all_entering(
        self,
        calls: Seq<QueueCall<B, L, E>>,
    ) -> Seq<DataQueueItem<B, L, E>>
        decreases calls.len(),
    {
        if calls.len() == 0 {
            Seq::empty()
        } else {
            self.all_entering(calls.drop_last()) + self.after_all(calls.drop_last()).entering(
                calls.last(),
            )
        }
    }

    /// The items that the calls take out of the queue, in order.
    pub open spec fn all_leaving(
        self,
        calls: Seq<QueueCall<B, L, E>>,
    ) -> Seq<DataQueueItem<B, L, E>>
        decreases calls.len(),
    {
        if calls.len() == 0 {
            Seq::empty()
        } else {
            self.all_leaving(calls.drop_last()) + self.after_all(calls.drop_last()).leaving(
                calls.last(),
            )
        }
    }

    /// Each call that clears the queue finds in it nothing that the levels count: no
    /// items, or only items of no buffers and no bytes, such as events.
    pub open spec fn clears_nothing_counted(self, calls: Seq<QueueCall<B, L, E>>) -> bool
        decreases calls.len(),
    {
        calls.len() == 0 || {
            let items = self.after_all(calls.drop_last()).items;
            &&& self.clears_nothing_counted(calls.drop_last())
            &&& calls.last() is Clear ==> total_buffers(items) == 0 && total_bytes(items) == 0
        }
    }

    /// How many buffers the level counts that are not in the queue.
    pub open spec fn surplus_buffers(self) -> int {
        self.cur_size_buffers - total_buffers(self.items)
    }

    /// How many bytes the level counts that are not in the queue.
    pub open spec fn surplus_bytes(self) -> int {
        self.cur_size_bytes - total_bytes(self.items)
    }
}

/// Each item that the calls push counts for at most one buffer.
pub open spec fn pushes_single_buffers<B, L, E>(calls: Seq<QueueCall<B, L, E>>) -> bool {
    forall|i: int|
        0 <= i < calls.len() ==> ((#[trigger] calls[i]) matches QueueCall::Push(item)
            ==> item.buffers() <= 1)
}

proof fn lemma_after<B, L, E>(v: DataQueueView<B, L, E>, call: QueueCall<B, L, E>)
    requires
        v.wf(),
        v.allows(call),
    ensures
        v.after(call).wf(),
        v.items + v.entering(call) == v.leaving(call) + v.after(call).items,
        v.after(call).surplus_buffers() == v.surplus_buffers() + if call is Clear {
            total_buffers(v.items)
        } else {
            0
        },
        v.after(call).surplus_bytes() == v.surplus_bytes() + if call is Clear {
            total_bytes(v.items)
        } else {
            0
        },
        v.after(call).max_size_buffers == v.max_size_buffers,
        v.after(call).max_size_bytes == v.max_size_bytes,
        v.after(call).max_size_time == v.max_size_time,
{
    let buffers = |i: DataQueueItem<B, L, E>| i.buffers();
    let bytes = |i: DataQueueItem<B, L, E>| i.bytes();
    match call {
        QueueCall::Push(item) => {
            lemma_sum_push(v.items, item, buffers);
            lemma_sum_push(v.items, item, bytes);
            if v.accepts(item) {
                assert(v.items + seq![item] =~= v.items.push(item));
            }
        },
        QueueCall::Next(_) => {
            if v.yields() {
                assert(seq![v.items.first()] + v.items.drop_first() =~= v.items);
            }
        },
        _ => {},
    }
    assert(v.items + v.entering(call) =~= v.leaving(call) + v.after(call).items);
}

/// First in, first out: over any calls, what was in the queue followed by what
/// entered is what left followed by what is still in the queue.
///
/// So items leave in the order in which they entered, and none is lost, repeated
/// or made up, whichever way starts, stops, pauses and clears fall between.
pub proof fn law_first_in_first_out<B, L, E>(
    v: DataQueueView<B, L, E>,
    calls: Seq<QueueCall<B, L, E>>,
)
    requires
        v.wf(),
        v.allows_all(calls),
    ensures
        v.items + v.all_entering(calls) == v.all_leaving(calls) + v.after_all(calls).items,
    decreases calls.len(),
{
    if calls.len() == 0 {
        assert(v.items + v.all_entering(calls) =~= v.all_leaving(calls) + v.items);
    } else {
        let before = calls.drop_last();
        let w = v.after_all(before);
        law_first_in_first_out(v, before);
        law_stays_well_formed(v, before);
        lemma_after(w, calls.last());
        let entering = w.entering(calls.last());
        assert(v.items + v.all_entering(calls) =~= (v.items + v.all_entering(before)) + entering);
        assert((v.all_leaving(before) + w.items) + entering =~= v.all_leaving(before) + (w.items
            + entering));
        assert(v.all_leaving(before) + (w.leaving(calls.last()) + w.after(calls.last()).items)
            =~= v.all_leaving(calls) + v.after_all(calls).items);
    }
}

/// Calls that may be made keep a queue well-formed. The levels never run below what
/// is in the queue, and no wake-up is lost: as long as the queue holds on to the
/// sending half of a consumer that waits, there is neither an item for that consumer
/// nor an order to stop.
pub proof fn law_stays_well_formed<B, L, E>(
    v: DataQueueView<B, L, E>,
    calls: Seq<QueueCall<B, L, E>>,
)
    requires
        v.wf(),
        v.allows_all(calls),
    ensures
        v.after_all(calls).wf(),
        v.after_all(calls).wake_sender is Some ==> {
            &&& !v.after_all(calls).yields()
            &&& v.after_all(calls).state != DataQueueState::Stopped
        },
    decreases calls.len(),
{
    if calls.len() > 0 {
        law_stays_well_formed(v, calls.drop_last());
        lemma_after(v.after_all(calls.drop_last()), calls.last());
    }
}

/// Calls never change the limits of a queue.
pub proof fn law_limits_are_fixed<B, L, E>(
    v: DataQueueView<B, L, E>,
    calls: Seq<QueueCall<B, L, E>>,
)
    requires
        v.wf(),
        v.allows_all(calls),
    ensures
        v.after_all(calls).max_size_buffers == v.max_size_buffers,
        v.after_all(calls).max_size_bytes == v.max_size_bytes,
        v.after_all(calls).max_size_time == v.max_size_time,
    decreases calls.len(),
{
    if calls.len() > 0 {
        law_limits_are_fixed(v, calls.drop_last());
        law_stays_well_formed(v, calls.drop_last());
        lemma_after(v.after_all(calls.drop_last()), calls.last());
    }
}

/// As long as clearing the queue throws away nothing that the levels count, they go
/// up and down by exactly what enters and leaves. In a queue whose levels count just
/// its items they go on doing so.
pub proof fn law_levels_count_contents<B, L, E>(
    v: DataQueueView<B, L, E>,
    calls: Seq<QueueCall<B, L, E>>,
)
    requires
        v.wf(),
        v.allows_all(calls),
        v.clears_nothing_counted(calls),
    ensures
        v.after_all(calls).surplus_buffers() == v.surplus_buffers(),
        v.after_all(calls).surplus_bytes() == v.surplus_bytes(),
    decreases calls.len(),
{
    if calls.len() > 0 {
        let before = calls.drop_last();
        law_levels_count_contents(v, before);
        law_stays_well_formed(v, before);
        lemma_after(v.after_all(before), calls.last());
    }
}

/// Clearing a queue leaves the levels, which from then on count what was thrown away.
pub proof fn law_clear_keeps_levels<B, L, E>(v: DataQueueView<B, L, E>)
    requires
        v.wf(),
        v.state == DataQueueState::Paused,
    ensures
        v.cleared().items.len() == 0,
        v.cleared().cur_size_buffers == v.cur_size_buffers,
        v.cleared().cur_size_bytes == v.cur_size_bytes,
        v.cleared().surplus_buffers() == v.surplus_buffers() + total_buffers(v.items),
        v.cleared().surplus_bytes() == v.surplus_bytes() + total_bytes(v.items),
{
}

/// The limit in buffers holds: a queue that starts below it, and gets items that
/// count for at most one buffer each, never exceeds it.
pub proof fn law_buffer_limit_holds<B, L, E>(
    v: DataQueueView<B, L, E>,
    calls: Seq<QueueCall<B, L, E>>,
    max: u32,
)
    requires
        v.wf(),
        v.allows_all(calls),
        v.max_size_buffers == Some(max),
        v.cur_size_buffers <= max,
        pushes_single_buffers(calls),
    ensures
        v.after_all(calls).cur_size_buffers <= max,
    decreases calls.len(),
{
    if calls.len() > 0 {
        let before = calls.drop_last();
        assert(calls.last() == calls[calls.len() - 1]);
        assert forall|i: int| 0 <= i < before.len() implies ((
        #[trigger] before[i]) matches QueueCall::Push(item) ==> item.buffers() <= 1) by {
            assert(before[i] == calls[i]);
        }
        law_buffer_limit_holds(v, before, max);
        law_limits_are_fixed(v, before);
        law_stays_well_formed(v, before);
        let w = v.after_all(before);
        assert(w.yields() ==> w.items.first().buffers() <= total_buffers(w.items));
    }
}

/// An item that enters finds the queue below its limits. So a level exceeds its
/// limit by less than what the item counts for, and the item's timestamp lies within
/// the limit in time of the first timestamp in the queue.
pub proof fn law_overshoot_is_bounded<B, L, E>(
    v: DataQueueView<B, L, E>,
    item: DataQueueItem<B, L, E>,
)
    requires
        v.wf(),
        v.accepts(item),
    ensures
        v.max_size_buffers matches Some(max) ==> v.pushed(item).cur_size_buffers < max
            + item.buffers(),
        v.max_size_bytes matches Some(max) ==> v.pushed(item).cur_size_bytes < max + item.bytes(),
        v.max_size_time matches Some(max) ==> (first_timestamp(v.items) matches Some(queue_ts) ==> (
        item.spec_timestamp() matches Some(ts) ==> time_apart(queue_ts, ts) < max)),
{
}

/// A started queue without limits takes everything.
pub proof fn law_unlimited_takes_all<B, L, E>(
    v: DataQueueView<B, L, E>,
    item: DataQueueItem<B, L, E>,
)
    requires
        v.state == DataQueueState::Started,
        v.max_size_buffers is None,
        v.max_size_bytes is None,
        v.max_size_time is None,
    ensures
        v.accepts(item),
{
}

/// A queue with a limit of zero buffers or zero bytes takes nothing, not even an event.
pub proof fn law_zero_limit_refuses_all<B, L, E>(
    v: DataQueueView<B, L, E>,
    item: DataQueueItem<B, L, E>,
)
    requires
        v.max_size_buffers == Some(0u32) || v.max_size_bytes == Some(0u32),
    ensures
        !v.accepts(item),
{
}

/// Taking an item right after it entered an empty queue gives it back, and leaves
/// the queue as it was, with the consumer awake.
pub proof fn law_next_undoes_push<B, L, E>(v: DataQueueView<B, L, E>, item: DataQueueItem<B, L, E>)
    requires
        v.wf(),
        v.accepts(item),
        v.items.len() == 0,
    ensures
        v.pushed(item).yields(),
        v.pushed(item).items.first() == item,
        v.pushed(item).popped() == (DataQueueView { wake_sender: None, ..v }),
{
    assert(v.pushed(item).popped().items =~= v.items);
}

/// Stopping or pausing a queue and starting it again loses no item and no level.
pub proof fn law_restart_keeps_contents<B, L, E>(v: DataQueueView<B, L, E>)
    requires
        v.wf(),
        v.state == DataQueueState::Started,
    ensures
        v.after(QueueCall::Stop).after(QueueCall::Start) == (DataQueueView {
            wake_sender: None,
            ..v
        }),
        v.after(QueueCall::Pause).after(QueueCall::Start) == (DataQueueView {
            wake_sender: None,
            ..v
        }),
{
}

/// Starting, pausing or stopping twice does what doing it once does.
pub proof fn law_switching_is_idempotent<B, L, E>(v: DataQueueView<B, L, E>)
    ensures
        v.after(QueueCall::Start).after(QueueCall::Start) == v.after(QueueCall::Start),
        v.after(QueueCall::Pause).after(QueueCall::Pause) == v.after(QueueCall::Pause),
        v.after(QueueCall::Stop).after(QueueCall::Stop) == v.after(QueueCall::Stop),
{
}

/// Only a started queue takes items in or hands items out.
pub proof fn law_only_started_moves_items<B, L, E>(
    v: DataQueueView<B, L, E>,
    call: QueueCall<B, L, E>,
)
    requires
        v.state != DataQueueState::Started,
        !(call is Clear),
    ensures
        v.after(call).items == v.items,
        v.entering(call).len() == 0,
        v.leaving(call).len() == 0,
{
}

} // verus!
