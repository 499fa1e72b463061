//! What a call on a data queue or one of its items gives, by what goes in and what
//! comes out.

use vstd::prelude::*;

use crate::dataqueue::{
    first_timestamp, surviving_events, DataQueue, DataQueueState, DataQueueView, NextItem,
};
use crate::item::{first_buffer_timestamp, BufferInfo, BufferList, DataQueueItem, Event, EventType};
use crate::sums::{lemma_sum_concat, sum_over};
use crate::wake::paired;

verus! {

/// The timestamp of a buffer is the one for decoding, or the one for presentation where
/// there is none for decoding.
pub proof fn law_timestamp_of_a_buffer(info: &BufferInfo, ts: Option<u64>)
    requires
        call_ensures(BufferInfo::get_dts_or_pts, (info,), ts),
    ensures
        info.dts is Some ==> ts == info.dts,
        info.dts is None ==> ts == info.pts,
{
}

/// An event outlives a clearing just where it is sticky and neither a segment nor the
/// end of the stream.
pub proof fn law_what_outlives_a_clearing<E>(event: &Event<E>, outlives: bool)
    requires
        call_ensures(Event::<E>::outlives_clear, (event,), outlives),
    ensures
        outlives <==> event.sticky && !(event.kind is Segment) && !(event.kind is Eos),
{
}

/// A buffer counts for one, an event for none, and a list for as many as it holds. A
/// buffer counts for its bytes, and an event for none.
pub proof fn law_size_of_an_item<B, L, E>(
    item: &DataQueueItem<B, L, E>,
    checked: Option<(u32, u32)>,
    size: (u32, u32),
)
    requires
        call_ensures(DataQueueItem::<B, L, E>::checked_size, (item,), checked),
        call_ensures(DataQueueItem::<B, L, E>::size, (item,), size),
    ensures
        checked is Some ==> checked == Some(size),
        size.0 == item.buffers(),
        size.1 == item.bytes(),
        checked is Some <==> item.size_fits(),
        match item {
            DataQueueItem::Buffer(buffer) => {
                &&& checked is Some
                &&& size.0 == 1
                &&& size.1 == buffer.info.size as nat % 0x1_0000_0000
            },
            DataQueueItem::BufferList(list) => {
                size.0 == list.buffers@.len() % 0x1_0000_0000
            },
            DataQueueItem::Event(_) => checked is Some && size.0 == 0 && size.1 == 0,
        },
{
}

/// The bytes of a list are those of its parts together: of none for an empty list, of
/// its buffer for a list of one, and of both halves for a list made of two. They cannot
/// be counted just where those of a half cannot, or those of both exceed 32 bits.
pub proof fn law_bytes_of_a_list_add_up<B, L, E>(
    front: BufferList<L>,
    back: BufferList<L>,
    whole: BufferList<L>,
    of_front: Option<(u32, u32)>,
    of_back: Option<(u32, u32)>,
    of_whole: Option<(u32, u32)>,
)
    requires
        whole.buffers@ == front.buffers@ + back.buffers@,
        call_ensures(
            DataQueueItem::<B, L, E>::checked_size,
            (&DataQueueItem::BufferList(front),),
            of_front,
        ),
        call_ensures(
            DataQueueItem::<B, L, E>::checked_size,
            (&DataQueueItem::BufferList(back),),
            of_back,
        ),
        call_ensures(
            DataQueueItem::<B, L, E>::checked_size,
            (&DataQueueItem::BufferList(whole),),
            of_whole,
        ),
    ensures
        of_whole is Some <==> of_front is Some && of_back is Some && (of_front->0).1
            + (of_back->0).1 <= u32::MAX,
        of_whole is Some ==> (of_whole->0).1 == (of_front->0).1 + (of_back->0).1,
        whole.buffers@.len() == 0 ==> of_whole == Some((0u32, 0u32)),
        whole.buffers@.len() == 1 ==> of_whole is Some && (of_whole->0).0 == 1 && (of_whole->0).1
            == whole.buffers@[0].size as nat % 0x1_0000_0000,
{
    let weight = |b: BufferInfo| b.level_bytes();
    lemma_sum_concat(front.buffers@, back.buffers@, weight);
    reveal_with_fuel(sum_over, 2);
    assert(DataQueueItem::<B, L, E>::BufferList(whole).bytes() == sum_over(whole.buffers@, weight));
    assert(DataQueueItem::<B, L, E>::BufferList(front).bytes() == sum_over(front.buffers@, weight));
    assert(DataQueueItem::<B, L, E>::BufferList(back).bytes() == sum_over(back.buffers@, weight));
}

/// The buffer at `at` is the first of those that has a timestamp.
pub open spec fn first_stamped_buffer(buffers: Seq<BufferInfo>, at: int) -> bool {
    &&& 0 <= at < buffers.len()
    &&& buffers[at].dts is Some || buffers[at].pts is Some
    &&& forall|i: int|
        0 <= i < at ==> (#[trigger] buffers[i]).dts is None && buffers[i].pts is None
}

proof fn lemma_first_buffer_timestamp(buffers: Seq<BufferInfo>)
    ensures
        forall|at: int| #[trigger]
            first_stamped_buffer(buffers, at) ==> first_buffer_timestamp(buffers)
                == if buffers[at].dts is Some {
                buffers[at].dts
            } else {
                buffers[at].pts
            },
        first_buffer_timestamp(buffers) is Some ==> exists|at: int|
            first_stamped_buffer(buffers, at),
    decreases buffers.len(),
{
    if buffers.len() > 0 {
        let rest = buffers.drop_first();
        lemma_first_buffer_timestamp(rest);
        let stamped = buffers.first().dts is Some || buffers.first().pts is Some;
        assert forall|at: int| #[trigger]
            first_stamped_buffer(buffers, at) implies first_buffer_timestamp(buffers)
            == if buffers[at].dts is Some {
            buffers[at].dts
        } else {
            buffers[at].pts
        } by {
            if at > 0 {
                assert(buffers[0].dts is None && buffers[0].pts is None);
                assert(rest[at - 1] == buffers[at]);
                assert forall|i: int| 0 <= i < at - 1 implies (#[trigger] rest[i]).dts is None
                    && rest[i].pts is None by {
                    assert(rest[i] == buffers[i + 1]);
                }
                assert(first_stamped_buffer(rest, at - 1));
            } else {
                assert(buffers[0] == buffers.first());
            }
        }
        if first_buffer_timestamp(buffers) is Some {
            if stamped {
                assert(first_stamped_buffer(buffers, 0));
            } else {
                let at = choose|at: int| first_stamped_buffer(rest, at);
                assert forall|i: int| 0 <= i < at + 1 implies (#[trigger] buffers[i]).dts is None
                    && buffers[i].pts is None by {
                    if i > 0 {
                        assert(rest[i - 1] == buffers[i]);
                    }
                }
                assert(rest[at] == buffers[at + 1]);
                assert(first_stamped_buffer(buffers, at + 1));
            }
        }
    }
}

/// The timestamp of an item is that of its buffer, or of the first buffer in its list
/// that has one. An event has none, and a list without stamped buffers has none.
pub proof fn law_timestamp_of_an_item<B, L, E>(item: &DataQueueItem<B, L, E>, ts: Option<u64>)
    requires
        call_ensures(DataQueueItem::<B, L, E>::timestamp, (item,), ts),
    ensures
        ts == item.spec_timestamp(),
        match item {
            DataQueueItem::Buffer(buffer) => {
                &&& buffer.info.dts is Some ==> ts == buffer.info.dts
                &&& buffer.info.dts is None ==> ts == buffer.info.pts
            },
            DataQueueItem::BufferList(list) => {
                let buffers = list.buffers@;
                &&& forall|at: int| #[trigger]
                    first_stamped_buffer(buffers, at) ==> ts == if buffers[at].dts is Some {
                        buffers[at].dts
                    } else {
                        buffers[at].pts
                    }
                &&& ts is Some ==> exists|at: int| first_stamped_buffer(buffers, at)
            },
            DataQueueItem::Event(_) => ts is None,
        },
{
    if let DataQueueItem::BufferList(list) = item {
        lemma_first_buffer_timestamp(list.buffers@);
    }
}

/// A new queue is stopped and empty, counts nothing, and has the limits it was given.
pub proof fn law_new_queue<B, L, E>(
    max_size_buffers: Option<u32>,
    max_size_bytes: Option<u32>,
    max_size_time: Option<u64>,
    queue: DataQueue<B, L, E>,
)
    requires
        call_ensures(
            DataQueue::<B, L, E>::new,
            (max_size_buffers, max_size_bytes, max_size_time),
            queue,
        ),
    ensures
        queue@.state is Stopped,
        queue@.items.len() == 0,
        queue@.cur_size_buffers == 0,
        queue@.cur_size_bytes == 0,
        queue@.max_size_buffers == max_size_buffers,
        queue@.max_size_bytes == max_size_bytes,
        queue@.max_size_time == max_size_time,
        queue@.wake_sender is None,
{
}

/// The state that a queue tells is the one it is in.
pub proof fn law_told_state<B, L, E>(queue: &DataQueue<B, L, E>, state: DataQueueState)
    requires
        call_ensures(DataQueue::<B, L, E>::state, (queue,), state),
    ensures
        state == queue@.state,
{
}

/// Starting a queue has it started. A consumer is woken just where it was not started
/// before, and nothing else changes.
pub proof fn law_starting_a_queue<B, L, E>(queue: &mut DataQueue<B, L, E>)
    requires
        call_ensures(DataQueue::<B, L, E>::start, (queue,), ()),
    ensures
        final(queue)@ == (DataQueueView {
            state: DataQueueState::Started,
            wake_sender: if old(queue)@.state is Started {
                old(queue)@.wake_sender
            } else {
                None
            },
            ..old(queue)@
        }),
{
}

/// Stopping a queue has it stopped. A consumer is woken just where it was not stopped
/// before, and nothing else changes.
pub proof fn law_stopping_a_queue<B, L, E>(queue: &mut DataQueue<B, L, E>)
    requires
        call_ensures(DataQueue::<B, L, E>::stop, (queue,), ()),
    ensures
        final(queue)@ == (DataQueueView {
            state: DataQueueState::Stopped,
            wake_sender: if old(queue)@.state is Stopped {
                old(queue)@.wake_sender
            } else {
                None
            },
            ..old(queue)@
        }),
{
}

/// Pausing a queue has it paused, and changes nothing else: no consumer is woken.
pub proof fn law_pausing_a_queue<B, L, E>(queue: &mut DataQueue<B, L, E>)
    requires
        call_ensures(DataQueue::<B, L, E>::pause, (queue,), ()),
    ensures
        final(queue)@ == (DataQueueView { state: DataQueueState::Paused, ..old(queue)@ }),
{
}

/// The item is an event that is sticky and neither a segment nor the end of the stream.
pub open spec fn is_kept_event<B, L, E>(item: DataQueueItem<B, L, E>) -> bool {
    item matches DataQueueItem::Event(event) && event.sticky && !(event.kind is Segment) && !(
    event.kind is Eos)
}

proof fn lemma_surviving_events<B, L, E>(items: Seq<DataQueueItem<B, L, E>>)
    ensures
        surviving_events(items).map_values(|event: Event<E>| DataQueueItem::<B, L, E>::Event(event))
            == items.filter(|item: DataQueueItem<B, L, E>| is_kept_event(item)),
    decreases items.len(),
{
    reveal(Seq::filter);
    let events = surviving_events(items).map_values(
        |event: Event<E>| DataQueueItem::<B, L, E>::Event(event),
    );
    let kept = items.filter(|item: DataQueueItem<B, L, E>| is_kept_event(item));
    if items.len() > 0 {
        lemma_surviving_events(items.drop_last());
    }
    assert(events =~= kept);
}

/// Clearing a queue empties it and changes nothing else. The events that it gives back
/// are all those in the queue that are sticky and neither a segment nor the end of the
/// stream, in their order, and no others.
pub proof fn law_clearing_a_queue<B, L, E>(queue: &mut DataQueue<B, L, E>, events: Vec<Event<E>>)
    requires
        call_ensures(DataQueue::<B, L, E>::clear, (queue,), events),
    ensures
        final(queue)@ == (DataQueueView {
            items: Seq::<DataQueueItem<B, L, E>>::empty(),
            ..old(queue)@
        }),
        events@.map_values(|event: Event<E>| DataQueueItem::<B, L, E>::Event(event))
            == old(queue)@.items.filter(|item: DataQueueItem<B, L, E>| is_kept_event(item)),
{
    lemma_surviving_events(old(queue)@.items);
}

/// What clearing gives back of an item does not depend on what stands next to it: of a
/// queue that holds what two others hold, one behind the other, it gives back what it
/// gives back of the two, one behind the other. Of a single item it gives back just that
/// item where it is an event that is kept, and nothing otherwise.
pub proof fn law_clearing_part_by_part<B, L, E>(
    front: &mut DataQueue<B, L, E>,
    back: &mut DataQueue<B, L, E>,
    whole: &mut DataQueue<B, L, E>,
    of_front: Vec<Event<E>>,
    of_back: Vec<Event<E>>,
    of_whole: Vec<Event<E>>,
)
    requires
        old(whole)@.items == old(front)@.items + old(back)@.items,
        call_ensures(DataQueue::<B, L, E>::clear, (front,), of_front),
        call_ensures(DataQueue::<B, L, E>::clear, (back,), of_back),
        call_ensures(DataQueue::<B, L, E>::clear, (whole,), of_whole),
    ensures
        of_whole@ == of_front@ + of_back@,
        old(whole)@.items.len() == 0 ==> of_whole@.len() == 0,
        old(whole)@.items.len() == 1 ==> match old(whole)@.items[0] {
            DataQueueItem::Event(event) if event.sticky && event.kind != EventType::Segment
                && event.kind != EventType::Eos => of_whole@ == seq![event],
            _ => of_whole@.len() == 0,
        },
{
    lemma_surviving_concat(old(front)@.items, old(back)@.items);
    reveal_with_fuel(surviving_events, 2);
}

proof fn lemma_surviving_concat<B, L, E>(
    front: Seq<DataQueueItem<B, L, E>>,
    back: Seq<DataQueueItem<B, L, E>>,
)
    ensures
        surviving_events(front + back) == surviving_events(front) + surviving_events(back),
    decreases back.len(),
{
    if back.len() == 0 {
        assert(front + back =~= front);
        assert(surviving_events(front) + surviving_events(back) =~= surviving_events(front));
    } else {
        lemma_surviving_concat(front, back.drop_last());
        assert((front + back).drop_last() =~= front + back.drop_last());
        assert((front + back).last() == back.last());
        assert(surviving_events(front + back) =~= surviving_events(front) + surviving_events(back));
    }
}

/// The item at `at` is the first of those that has a timestamp.
pub open spec fn first_stamped<B, L, E>(items: Seq<DataQueueItem<B, L, E>>, at: int) -> bool {
    &&& 0 <= at < items.len()
    &&& items[at].spec_timestamp() is Some
    &&& forall|i: int| 0 <= i < at ==> (#[trigger] items[i]).spec_timestamp() is None
}

proof fn lemma_first_timestamp<B, L, E>(items: Seq<DataQueueItem<B, L, E>>)
    ensures
        forall|at: int| #[trigger]
            first_stamped(items, at) ==> first_timestamp(items) == items[at].spec_timestamp(),
        first_timestamp(items) is Some ==> exists|at: int| first_stamped(items, at),
    decreases items.len(),
{
    if items.len() > 0 {
        let rest = items.drop_first();
        lemma_first_timestamp(rest);
        assert forall|at: int| #[trigger] first_stamped(items, at) implies first_timestamp(items)
            == items[at].spec_timestamp() by {
            if at > 0 {
                assert(items[0].spec_timestamp() is None);
                assert(rest[at - 1] == items[at]);
                assert forall|i: int| 0 <= i < at - 1 implies (
                #[trigger] rest[i]).spec_timestamp() is None by {
                    assert(rest[i] == items[i + 1]);
                }
                assert(first_stamped(rest, at - 1));
            } else {
                assert(items[0] == items.first());
            }
        }
        if first_timestamp(items) is Some {
            if items.first().spec_timestamp() is Some {
                assert(first_stamped(items, 0));
            } else {
                let at = choose|at: int| first_stamped(rest, at);
                assert forall|i: int| 0 <= i < at + 1 implies (
                #[trigger] items[i]).spec_timestamp() is None by {
                    if i > 0 {
                        assert(rest[i - 1] == items[i]);
                    }
                }
                assert(rest[at] == items[at + 1]);
                assert(first_stamped(items, at + 1));
            }
        }
    }
}

/// Each limit that is set exceeds its own level: that in buffers the level in buffers,
/// that in bytes the level in bytes, and that in time the distance from the item's
/// timestamp to the first one in the queue, either way round, where there are both.
pub open spec fn below_limits<B, L, E>(
    v: DataQueueView<B, L, E>,
    item: DataQueueItem<B, L, E>,
) -> bool {
    &&& v.max_size_buffers is Some ==> v.cur_size_buffers < v.max_size_buffers->0
    &&& v.max_size_bytes is Some ==> v.cur_size_bytes < v.max_size_bytes->0
    &&& forall|at: int| #[trigger]
        first_stamped(v.items, at) && v.max_size_time is Some && item.spec_timestamp() is Some ==> {
            let first = v.items[at].spec_timestamp()->0;
            let ts = item.spec_timestamp()->0;
            -(v.max_size_time->0) < first - ts < v.max_size_time->0
        }
}

proof fn lemma_below_limits<B, L, E>(v: DataQueueView<B, L, E>, item: DataQueueItem<B, L, E>)
    ensures
        v.accepts(item) <==> v.state is Started && below_limits(v, item),
{
    lemma_first_timestamp(v.items);
    if v.state is Started && below_limits(v, item) && first_timestamp(v.items) is Some {
        let at = choose|at: int| first_stamped(v.items, at);
        assert(first_stamped(v.items, at));
    }
}

/// A queue takes an item just where it is started and each of its limits exceeds its own
/// level. The item then is the last in the queue, the levels rise by what it counts for,
/// and a consumer is woken; otherwise the item itself comes back. Nothing else changes.
pub proof fn law_pushing_an_item<B, L, E>(
    queue: &mut DataQueue<B, L, E>,
    item: DataQueueItem<B, L, E>,
    res: Result<(), DataQueueItem<B, L, E>>,
)
    requires
        call_ensures(DataQueue::<B, L, E>::push, (queue, item), res),
    ensures
        res is Ok <==> old(queue)@.state is Started && below_limits(old(queue)@, item),
        res is Ok ==> {
            &&& final(queue)@.items.len() == old(queue)@.items.len() + 1
            &&& final(queue)@.items.last() == item
            &&& final(queue)@.items.drop_last() == old(queue)@.items
            &&& final(queue)@.wake_sender is None
            &&& final(queue)@ == (DataQueueView {
                items: final(queue)@.items,
                cur_size_buffers: final(queue)@.cur_size_buffers,
                cur_size_bytes: final(queue)@.cur_size_bytes,
                wake_sender: None,
                ..old(queue)@
            })
            &&& final(queue)@.cur_size_buffers - old(queue)@.cur_size_buffers == item.buffers()
            &&& final(queue)@.cur_size_bytes - old(queue)@.cur_size_bytes == item.bytes()
        },
        res is Err ==> res->Err_0 == item && final(queue)@ == old(queue)@,
{
    lemma_below_limits(old(queue)@, item);
    if res is Ok {
        assert(final(queue)@.items.drop_last() =~= old(queue)@.items);
    }
}

/// An item can be pushed unless a started queue would count more than 32 bits hold: the
/// bytes of the item, or a level once the queue took it.
pub proof fn law_what_can_be_pushed<B, L, E>(
    queue: &DataQueue<B, L, E>,
    item: &DataQueueItem<B, L, E>,
    can: bool,
)
    requires
        call_ensures(DataQueue::<B, L, E>::can_push, (queue, item), can),
    ensures
        !can <==> queue@.state is Started && {
            ||| item.bytes() > u32::MAX
            ||| below_limits(queue@, *item) && {
                ||| queue@.cur_size_buffers + item.buffers() > u32::MAX
                ||| queue@.cur_size_bytes + item.bytes() > u32::MAX
            }
        },
{
    lemma_below_limits(queue@, *item);
}

/// A consumer of a started queue gets its first item, which leaves the queue and its
/// levels, or has to wait where there is none. A consumer of a paused queue has to wait,
/// and one of a stopped queue is told to stop. One that has to wait gets the other half
/// of the channel that the queue keeps. Nothing else changes.
pub proof fn law_asking_for_the_next_item<B, L, E>(
    queue: &mut DataQueue<B, L, E>,
    next: NextItem<B, L, E>,
)
    requires
        old(queue)@.wf(),
        call_ensures(DataQueue::<B, L, E>::next, (queue,), next),
    ensures
        next is Item <==> old(queue)@.state is Started && old(queue)@.items.len() > 0,
        next is Wait <==> old(queue)@.state is Paused || old(queue)@.state is Started
            && old(queue)@.items.len() == 0,
        next is Stopped <==> old(queue)@.state is Stopped,
        next matches NextItem::Item(item) ==> {
            &&& old(queue)@.items == seq![item] + final(queue)@.items
            &&& final(queue)@ == (DataQueueView {
                items: final(queue)@.items,
                cur_size_buffers: final(queue)@.cur_size_buffers,
                cur_size_bytes: final(queue)@.cur_size_bytes,
                ..old(queue)@
            })
            &&& old(queue)@.cur_size_buffers - final(queue)@.cur_size_buffers == item.buffers()
            &&& old(queue)@.cur_size_bytes - final(queue)@.cur_size_bytes == item.bytes()
        },
        next matches NextItem::Wait(receiver) ==> {
            &&& final(queue)@.wake_sender is Some
            &&& paired(final(queue)@.wake_sender->0, receiver)
            &&& final(queue)@ == (DataQueueView {
                wake_sender: final(queue)@.wake_sender,
                ..old(queue)@
            })
        },
        next is Stopped ==> final(queue)@ == old(queue)@,
{
    if let NextItem::Item(item) = next {
        assert(old(queue)@.items =~= seq![item] + final(queue)@.items);
    }
}

} // verus!
