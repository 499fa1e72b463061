//! What travels through a data queue: buffers, lists of buffers and events.

use vstd::prelude::*;

use crate::sums::{lemma_sum_next, sum_over};

verus! {

/// What is read of a buffer: its size in bytes, and its decoding and presentation
/// timestamps in nanoseconds where they are set.
#[derive(Debug, Clone, Copy)]
pub struct BufferInfo {
    pub size: usize,
    pub dts: Option<u64>,
    pub pts: Option<u64>,
}

/// A buffer: what is read of it, and the buffer itself, which the queue only carries
/// along.
#[derive(Debug)]
pub struct Buffer<B> {
    pub info: BufferInfo,
    pub payload: B,
}

/// A list of buffers: what is read of each, and the list itself, which the queue only
/// carries along.
#[derive(Debug)]
pub struct BufferList<L> {
    pub buffers: Vec<BufferInfo>,
    pub payload: L,
}

impl BufferInfo {
    /// The decoding timestamp, or the presentation timestamp where there is none.
    pub open spec fn dts_or_pts(self) -> Option<u64> {
        if self.dts is Some {
            self.dts
        } else {
            self.pts
        }
    }

    /// The size as a 32-bit level counts it: its low 32 bits.
    pub open spec fn level_bytes(self) -> nat {
        self.size as nat % 0x1_0000_0000
    }

    /// Returns the decoding timestamp, or the presentation timestamp where there
    /// is none.
    pub fn get_dts_or_pts(&self) -> (ts: Option<u64>)
        ensures
            ts == self.dts_or_pts(),
    {
        match self.dts {
            Some(dts) => Some(dts),
            None => self.pts,
        }
    }

    /// Returns the low 32 bits of the size.
    fn get_level_bytes(&self) -> (bytes: u32)
        ensures
            bytes == self.level_bytes(),
    {
        low_u32(self.size)
    }
}

/// The kinds of event that are told apart; any other kind is `Other`.
#[derive(Debug, Clone, Copy, PartialEq, Eq, Structural)]
pub enum EventType {
    FlushStart,
    FlushStop,
    Segment,
    Eos,
    Latency,
    Reconfigure,
    Other,
}

/// An event: its kind, whether pads keep it as sticky, and the event itself,
/// which the queue only carries along.
#[derive(Debug)]
pub struct Event<E> {
    pub kind: EventType,
    pub sticky: bool,
    pub payload: E,
}

impl<E> Event<E> {
    /// Whether the event outlives a clearing of the queue: it is sticky, and
    /// neither a segment nor the end of the stream.
    pub open spec fn survives_clear(self) -> bool {
        self.sticky && self.kind != EventType::Segment && self.kind != EventType::Eos
    }

    /// Returns whether the event outlives a clearing of the queue.
    pub fn outlives_clear(&self) -> (outlives: bool)
        ensures
            outlives == self.survives_clear(),
    {
        self.sticky && self.kind != EventType::Segment && self.kind != EventType::Eos
    }
}

/// One entry of a data queue.
#[derive(Debug)]
pub enum DataQueueItem<B, L, E> {
    Buffer(Buffer<B>),
    BufferList(BufferList<L>),
    Event(Event<E>),
}

/// The timestamp of the first buffer that has one.
pub open spec fn first_buffer_timestamp(buffers: Seq<BufferInfo>) -> Option<u64>
    decreases buffers.len(),
{
    if buffers.len() == 0 {
        None
    } else if buffers.first().dts_or_pts() is Some {
        buffers.first().dts_or_pts()
    } else {
        first_buffer_timestamp(buffers.drop_first())
    }
}

/// The bytes of all buffers together, each counted by its low 32 bits.
pub open spec fn list_bytes(buffers: Seq<BufferInfo>) -> nat {
    sum_over(buffers, |b: BufferInfo| b.level_bytes())
}

impl<B, L, E> DataQueueItem<B, L, E> {
    /// How many buffers the item counts for: one for a buffer, the low 32 bits
    /// of its length for a list, none for an event.
    pub open spec fn buffers(self) -> nat {
        match self {
            DataQueueItem::Buffer(_) => 1,
            DataQueueItem::BufferList(list) => list.buffers@.len() % 0x1_0000_0000,
            DataQueueItem::Event(_) => 0,
        }
    }

    /// How many bytes the item counts for.
    pub open spec fn bytes(self) -> nat {
        match self {
            DataQueueItem::Buffer(buffer) => buffer.info.level_bytes(),
            DataQueueItem::BufferList(list) => list_bytes(list.buffers@),
            DataQueueItem::Event(_) => 0,
        }
    }

    /// Whether the bytes that the item counts for can be written in 32 bits.
    pub open spec fn size_fits(self) -> bool {
        self.bytes() <= u32::MAX
    }

    /// The timestamp that the queue measures its duration by, if there is one.
    pub open spec fn spec_timestamp(self) -> Option<u64> {
        match self {
            DataQueueItem::Buffer(buffer) => buffer.info.dts_or_pts(),
            DataQueueItem::BufferList(list) => first_buffer_timestamp(list.buffers@),
            DataQueueItem::Event(_) => None,
        }
    }

    /// Returns how many buffers and how many bytes the item counts for.
    pub fn size(&self) -> (size: (u32, u32))
        requires
            self.size_fits(),
        ensures
            size.0 == self.buffers(),
            size.1 == self.bytes(),
    {
        self.checked_size().unwrap()
    }

    /// Returns how many buffers and how many bytes the item counts for, or `None`
    /// where the bytes cannot be written in 32 bits.
    pub fn checked_size(&self) -> (size: Option<(u32, u32)>)
        ensures
            size is Some <==> self.size_fits(),
            size matches Some(size) ==> size.0 == self.buffers() && size.1 == self.bytes(),
    {
        match self {
            DataQueueItem::Buffer(buffer) => Some((1, buffer.info.get_level_bytes())),
            DataQueueItem::BufferList(list) => {
                let buffers = &list.buffers;
                let ghost weight = |b: BufferInfo| b.level_bytes();
                let mut bytes: u32 = 0;
                let mut i: usize = 0;
                while i < buffers.len()
                    invariant
                        i <= buffers.len(),
                        *self == DataQueueItem::<B, L, E>::BufferList(*list),
                        *buffers == list.buffers,
                        weight == (|b: BufferInfo| b.level_bytes()),
                        bytes == sum_over(buffers@.take(i as int), weight),
                    decreases buffers.len() - i,
                {
                    proof {
                        lemma_sum_next(buffers@, i as int, weight);
                    }
                    match bytes.checked_add(buffers[i].get_level_bytes()) {
                        Some(sum) => {
                            bytes = sum;
                        },
                        None => {
                            return None;
                        },
                    }
                    i = i + 1;
                }
                assert(buffers@.take(i as int) =~= buffers@);
                Some((low_u32(buffers.len()), bytes))
            },
            DataQueueItem::Event(_) => Some((0, 0)),
        }
    }

    /// Returns the timestamp that the queue measures its duration by.
    pub fn timestamp(&self) -> (ts: Option<u64>)
        ensures
            ts == self.spec_timestamp(),
    {
        match self {
            DataQueueItem::Buffer(buffer) => buffer.info.get_dts_or_pts(),
            DataQueueItem::BufferList(list) => {
                let buffers = &list.buffers;
                let mut i: usize = 0;
                assert(buffers@.skip(0) =~= buffers@);
                while i < buffers.len()
                    invariant
                        i <= buffers.len(),
                        *self == DataQueueItem::<B, L, E>::BufferList(*list),
                        *buffers == list.buffers,
                        first_buffer_timestamp(buffers@) == first_buffer_timestamp(
                            buffers@.skip(i as int),
                        ),
                    decreases buffers.len() - i,
                {
                    assert(buffers@.skip(i as int).drop_first() =~= buffers@.skip(i + 1));
                    let ts = buffers[i].get_dts_or_pts();
                    if ts.is_some() {
                        return ts;
                    }
                    i = i + 1;
                }
                None
            },
            DataQueueItem::Event(_) => None,
        }
    }
}

/// Returns the low 32 bits of `n`.
fn low_u32(n: usize) -> (low: u32)
    ensures
        low == n as nat % 0x1_0000_0000,
{
    let wide: u64 = n as u64;
    assert(wide as u32 == wide % 0x1_0000_0000) by (bit_vector);
    #[verifier::truncate]
    (wide as u32)
}

} // verus!
