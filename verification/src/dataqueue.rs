//! A bounded queue of buffers and events between the task that produces them and
//! the task that consumes them.
//!
//! The queue is full once its level in buffers, in bytes or in time reaches the
//! limit set for it. A consumer that finds nothing to take gets the receiving half
//! of a one-shot channel; the queue keeps the sending half and drops it as soon as
//! there may be something to do.

use std::collections::VecDeque;

use vstd::prelude::*;

use futures::channel::oneshot;

use crate::item::{DataQueueItem, Event};
use crate::sums::{lemma_sum_push, sum_over};
use crate::wake::paired;

verus! {

/// Whether items can enter and leave the queue.
#[derive(Debug, Clone, Copy, PartialEq, Eq, Structural)]
pub enum DataQueueState {
    /// Nothing enters; a consumer waits.
    Paused,
    /// Items enter and leave.
    Started,
    /// Nothing enters; a consumer is told to stop.
    Stopped,
}

/// What a consumer that asks for the next item has to do.
#[derive(Debug)]
pub enum NextItem<B, L, E> {
    /// Handle this item.
    Item(DataQueueItem<B, L, E>),
    /// Wait for the channel to complete, and then ask again.
    Wait(oneshot::Receiver<()>),
    /// Stop asking.
    Stopped,
}

/// The abstract state of a queue.
#[verifier::ext_equal]
pub struct DataQueueView<B, L, E> {
    pub state: DataQueueState,
    /// The items, in the order in which they leave.
    pub items: Seq<DataQueueItem<B, L, E>>,
    /// The level in buffers.
    pub cur_size_buffers: nat,
    /// The level in bytes.
    pub cur_size_bytes: nat,
    pub max_size_buffers: Option<u32>,
    pub max_size_bytes: Option<u32>,
    pub max_size_time: Option<u64>,
    /// The sending half kept for a consumer that waits.
    pub wake_sender: Option<oneshot::Sender<()>>,
}

/// The buffers that all items count for.
pub open spec fn total_buffers<B, L, E>(items: Seq<DataQueueItem<B, L, E>>) -> nat {
    sum_over(items, |i: DataQueueItem<B, L, E>| i.buffers())
}

/// The bytes that all items count for.
pub open spec fn total_bytes<B, L, E>(items: Seq<DataQueueItem<B, L, E>>) -> nat {
    sum_over(items, |i: DataQueueItem<B, L, E>| i.bytes())
}

/// The timestamp of the first item that has one.
pub open spec fn first_timestamp<B, L, E>(items: Seq<DataQueueItem<B, L, E>>) -> Option<u64>
    decreases items.len(),
{
    if items.len() == 0 {
        None
    } else if items.first().spec_timestamp() is Some {
        items.first().spec_timestamp()
    } else {
        first_timestamp(items.drop_first())
    }
}

/// The events among `items` that outlive a clearing of the queue, in their order.
pub open spec fn surviving_events<B, L, E>(items: Seq<DataQueueItem<B, L, E>>) -> Seq<Event<E>>
    decreases items.len(),
{
    if items.len() == 0 {
        Seq::empty()
    } else {
        let rest = surviving_events(items.drop_last());
        match items.last() {
            DataQueueItem::Event(event) => if event.survives_clear() {
                rest.push(event)
            } else {
                rest
            },
            _ => rest,
        }
    }
}

/// How far two timestamps are apart.
pub open spec fn time_apart(a: u64, b: u64) -> nat {
    if a > b {
        (a - b) as nat
    } else {
        (b - a) as nat
    }
}

impl<B, L, E> DataQueueView<B, L, E> {
    /// The levels fit in 32 bits and count at least what is in the queue, and a
    /// consumer is kept waiting only while there is nothing for it to do.
    ///
    /// The levels can count more than what is in the queue: clearing takes the items
    /// out and leaves the levels.
    pub open spec fn wf(self) -> bool {
        &&& total_buffers(self.items) <= self.cur_size_buffers <= u32::MAX
        &&& total_bytes(self.items) <= self.cur_size_bytes <= u32::MAX
        &&& self.wake_sender is Some ==> self.waits()
    }

    /// The level in buffers has reached its limit.
    pub open spec fn full_buffers(self) -> bool {
        self.max_size_buffers matches Some(max) && max <= self.cur_size_buffers
    }

    /// The level in bytes has reached its limit.
    pub open spec fn full_bytes(self) -> bool {
        self.max_size_bytes matches Some(max) && max <= self.cur_size_bytes
    }

    /// An item of timestamp `ts` is at least the limit in time away from the first
    /// timestamp in the queue.
    pub open spec fn full_time(self, ts: Option<u64>) -> bool {
        match (self.max_size_time, first_timestamp(self.items), ts) {
            (Some(max), Some(queue_ts), Some(ts)) => max <= time_apart(queue_ts, ts),
            _ => false,
        }
    }

    /// The queue takes `item`: it is started, and full by none of its limits.
    pub open spec fn accepts(self, item: DataQueueItem<B, L, E>) -> bool {
        &&& self.state == DataQueueState::Started
        &&& !self.full_buffers()
        &&& !self.full_bytes()
        &&& !self.full_time(item.spec_timestamp())
    }

    /// Counting `item` exceeds 32 bits nowhere: neither in its own bytes, which a
    /// started queue counts, nor in the levels, where the queue takes it.
    pub open spec fn can_count(self, item: DataQueueItem<B, L, E>) -> bool {
        self.state == DataQueueState::Started ==> {
            &&& item.size_fits()
            &&& self.accepts(item) ==> {
                &&& self.cur_size_buffers + item.buffers() <= u32::MAX
                &&& self.cur_size_bytes + item.bytes() <= u32::MAX
            }
        }
    }

    /// The queue after it took `item`, which wakes a consumer.
    pub open spec fn pushed(self, item: DataQueueItem<B, L, E>) -> Self {
        DataQueueView {
            items: self.items.push(item),
            cur_size_buffers: self.cur_size_buffers + item.buffers(),
            cur_size_bytes: self.cur_size_bytes + item.bytes(),
            wake_sender: None,
            ..self
        }
    }

    /// A consumer gets an item: the queue is started and not empty.
    pub open spec fn yields(self) -> bool {
        self.state == DataQueueState::Started && self.items.len() > 0
    }

    /// A consumer has to wait: the queue is paused, or started and empty.
    pub open spec fn waits(self) -> bool {
        self.state == DataQueueState::Paused || (self.state == DataQueueState::Started
            && self.items.len() == 0)
    }

    /// The queue after its first item left.
    pub open spec fn popped(self) -> Self {
        DataQueueView {
            items: self.items.drop_first(),
            cur_size_buffers: (self.cur_size_buffers - self.items.first().buffers()) as nat,
            cur_size_bytes: (self.cur_size_bytes - self.items.first().bytes()) as nat,
            ..self
        }
    }

    /// The queue after its items were thrown away. The levels stay as they are.
    pub open spec fn cleared(self) -> Self {
        DataQueueView { items: Seq::empty(), ..self }
    }

    /// The queue after a change to `state` that wakes a consumer.
    pub open spec fn switched(self, state: DataQueueState) -> Self {
        if self.state == state {
            self
        } else {
            DataQueueView { state, wake_sender: None, ..self }
        }
    }

    /// The queue after a change to `state` that leaves a consumer waiting.
    pub open spec fn held(self, state: DataQueueState) -> Self {
        DataQueueView { state, ..self }
    }
}

/// A bounded queue of buffers and events.
#[derive(Debug)]
pub struct DataQueue<B, L, E> {
    state: DataQueueState,
    queue: VecDeque<DataQueueItem<B, L, E>>,
    cur_size_buffers: u32,
    cur_size_bytes: u32,
    max_size_buffers: Option<u32>,
    max_size_bytes: Option<u32>,
    max_size_time: Option<u64>,
    wake_sender: Option<oneshot::Sender<()>>,
}

impl<B, L, E> View for DataQueue<B, L, E> {
    type V = DataQueueView<B, L, E>;

    closed spec fn view(&self) -> DataQueueView<B, L, E> {
        DataQueueView {
            state: self.state,
            items: self.queue@,
            cur_size_buffers: self.cur_size_buffers as nat,
            cur_size_bytes: self.cur_size_bytes as nat,
            max_size_buffers: self.max_size_buffers,
            max_size_bytes: self.max_size_bytes,
            max_size_time: self.max_size_time,
            wake_sender: self.wake_sender,
        }
    }
}

impl<B, L, E> DataQueue<B, L, E> {
    /// Makes an empty, stopped queue with the given limits; `None` is no limit.
    pub fn new(
        max_size_buffers: Option<u32>,
        max_size_bytes: Option<u32>,
        max_size_time: Option<u64>,
    ) -> (queue: DataQueue<B, L, E>)
        ensures
            queue@.wf(),
            queue@ == (DataQueueView {
                state: DataQueueState::Stopped,
                items: Seq::<DataQueueItem<B, L, E>>::empty(),
                cur_size_buffers: 0,
                cur_size_bytes: 0,
                max_size_buffers,
                max_size_bytes,
                max_size_time,
                wake_sender: None,
            }),
    {
        DataQueue {
            state: DataQueueState::Stopped,
            queue: VecDeque::new(),
            cur_size_buffers: 0,
            cur_size_bytes: 0,
            max_size_buffers,
            max_size_bytes,
            max_size_time,
            wake_sender: None,
        }
    }

    /// Drops the sending half, which wakes the consumer that waits, if one does.
    fn wake(&mut self)
        ensures
            final(self)@ == (DataQueueView { wake_sender: None, ..old(self)@ }),
    {
        self.wake_sender.take();
    }

    /// Returns the state of the queue.
    pub fn state(&self) -> (state: DataQueueState)
        ensures
            state == self@.state,
    {
        self.state
    }

    /// Lets items enter and leave, and wakes a consumer that waits. Does nothing
    /// on a queue that is started.
    pub fn start(&mut self)
        requires
            old(self)@.wf(),
        ensures
            final(self)@.wf(),
            final(self)@ == old(self)@.switched(DataQueueState::Started),
    {
        if self.state == DataQueueState::Started {
            return;
        }
        self.state = DataQueueState::Started;
        self.wake();
    }

    /// Holds items back; a consumer that waits goes on waiting. A stopped queue
    /// cannot be paused.
    pub fn pause(&mut self)
        requires
            old(self)@.wf(),
            old(self)@.state != DataQueueState::Stopped,
        ensures
            final(self)@.wf(),
            final(self)@ == old(self)@.held(DataQueueState::Paused),
    {
        self.state = DataQueueState::Paused;
    }

    /// Tells consumers to stop, and wakes one that waits. Does nothing on a queue
    /// that is stopped. The items stay.
    pub fn stop(&mut self)
        requires
            old(self)@.wf(),
        ensures
            final(self)@.wf(),
            final(self)@ == old(self)@.switched(DataQueueState::Stopped),
    {
        if self.state == DataQueueState::Stopped {
            return;
        }
        self.state = DataQueueState::Stopped;
        self.wake();
    }

    /// Throws away all items of a paused queue, and returns the events among them
    /// that the pad has to store as sticky, in their order.
    pub fn clear(&mut self) -> (events: Vec<Event<E>>)
        requires
            old(self)@.wf(),
            old(self)@.state == DataQueueState::Paused,
        ensures
            final(self)@.wf(),
            final(self)@ == old(self)@.cleared(),
            events@ == surviving_events(old(self)@.items),
    {
        let ghost items = self.queue@;
        let mut events: Vec<Event<E>> = Vec::new();
        let ghost mut done: int = 0;
        assert(items.take(0) =~= Seq::empty());
        assert(items.skip(0) =~= items);
        while self.queue.len() > 0
            invariant
                items == old(self)@.items,
                0 <= done <= items.len(),
                self@ == (DataQueueView { items: items.skip(done), ..old(self)@ }),
                events@ == surviving_events(items.take(done)),
            decreases self.queue.len(),
        {
            proof {
                assert(items.take(done + 1).drop_last() =~= items.take(done));
                assert(items.skip(done).drop_first() =~= items.skip(done + 1));
                assert(items.skip(done).first() == items.take(done + 1).last());
            }
            if let Some(DataQueueItem::Event(event)) = self.queue.pop_front() {
                if event.outlives_clear() {
                    events.push(event);
                }
            }
            proof {
                done = done + 1;
            }
        }
        assert(items.take(done) =~= items);
        events
    }

    /// Returns the timestamp of the first item that has one.
    fn queue_timestamp(&self) -> (ts: Option<u64>)
        ensures
            ts == first_timestamp(self@.items),
    {
        let mut i: usize = 0;
        assert(self.queue@.skip(0) =~= self.queue@);
        while i < self.queue.len()
            invariant
                i <= self.queue.len(),
                first_timestamp(self.queue@) == first_timestamp(self.queue@.skip(i as int)),
            decreases self.queue.len() - i,
        {
            assert(self.queue@.skip(i as int).drop_first() =~= self.queue@.skip(i + 1));
            let ts = self.queue[i].timestamp();
            if ts.is_some() {
                return ts;
            }
            i = i + 1;
        }
        None
    }

    /// Returns whether the queue takes `item`.
    fn has_room(&self, item: &DataQueueItem<B, L, E>) -> (room: bool)
        ensures
            room == self@.accepts(*item),
    {
        if self.state != DataQueueState::Started {
            return false;
        }
        let queue_ts = self.queue_timestamp();
        let ts = item.timestamp();

        if let Some(max) = self.max_size_buffers {
            if max <= self.cur_size_buffers {
                return false;
            }
        }
        if let Some(max) = self.max_size_bytes {
            if max <= self.cur_size_bytes {
                return false;
            }
        }
        if let (Some(max), Some(queue_ts), Some(ts)) = (self.max_size_time, queue_ts, ts) {
            let level: u64 = if queue_ts > ts {
                queue_ts - ts
            } else {
                ts - queue_ts
            };
            if max <= level {
                return false;
            }
        }
        true
    }

    /// Returns whether `item` can be pushed without a count that exceeds 32 bits.
    pub fn can_push(&self, item: &DataQueueItem<B, L, E>) -> (can: bool)
        ensures
            can == self@.can_count(*item),
    {
        if self.state != DataQueueState::Started {
            return true;
        }
        match item.checked_size() {
            None => false,
            Some((count, bytes)) => {
                !self.has_room(item) || (self.cur_size_buffers.checked_add(count).is_some()
                    && self.cur_size_bytes.checked_add(bytes).is_some())
            },
        }
    }

    /// Puts `item` at the end of the queue and wakes a consumer that waits. An item
    /// that the queue does not take is handed back, and the queue stays as it is.
    pub fn push(&mut self, item: DataQueueItem<B, L, E>) -> (res: Result<
        (),
        DataQueueItem<B, L, E>,
    >)
        requires
            old(self)@.wf(),
            old(self)@.can_count(item),
        ensures
            final(self)@.wf(),
            old(self)@.accepts(item) ==> res is Ok && final(self)@ == old(self)@.pushed(item),
            !old(self)@.accepts(item) ==> res == Err::<(), _>(item) && final(self)@ == old(self)@,
    {
        if !self.has_room(&item) {
            return Err(item);
        }
        let (count, bytes) = item.size();
        proof {
            lemma_sum_push(self.queue@, item, |i: DataQueueItem<B, L, E>| i.buffers());
            lemma_sum_push(self.queue@, item, |i: DataQueueItem<B, L, E>| i.bytes());
        }
        self.queue.push_back(item);
        self.cur_size_buffers = self.cur_size_buffers + count;
        self.cur_size_bytes = self.cur_size_bytes + bytes;
        self.wake();
        Ok(())
    }

    /// Takes the first item out of a started queue. A paused queue, and a started
    /// one that is empty, makes a channel, keeps its sending half in place of an
    /// earlier one, and hands out the receiving half to wait for.
    pub fn next(&mut self) -> (next: NextItem<B, L, E>)
        requires
            old(self)@.wf(),
        ensures
            final(self)@.wf(),
            old(self)@.yields() <==> next is Item,
            old(self)@.waits() <==> next is Wait,
            old(self)@.state == DataQueueState::Stopped <==> next is Stopped,
            next matches NextItem::Item(item) ==> item == old(self)@.items.first() && final(self)@
                == old(self)@.popped(),
            next matches NextItem::Wait(receiver) ==> {
                &&& final(self)@.wake_sender matches Some(sender) && paired(sender, receiver)
                &&& final(self)@ == (DataQueueView {
                    wake_sender: final(self)@.wake_sender,
                    ..old(self)@
                })
            },
            next is Stopped ==> final(self)@ == old(self)@,
    {
        match self.state {
            DataQueueState::Started => match self.queue.pop_front() {
                None => {
                    let (sender, receiver) = oneshot::channel::<()>();
                    self.wake_sender = Some(sender);
                    NextItem::Wait(receiver)
                },
                Some(item) => {
                    let (count, bytes) = item.size();
                    self.cur_size_buffers = self.cur_size_buffers - count;
                    self.cur_size_bytes = self.cur_size_bytes - bytes;
                    NextItem::Item(item)
                },
            },
            DataQueueState::Paused => {
                let (sender, receiver) = oneshot::channel::<()>();
                self.wake_sender = Some(sender);
                NextItem::Wait(receiver)
            },
            DataQueueState::Stopped => NextItem::Stopped,
        }
    }
}

} // verus!
