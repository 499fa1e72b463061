use threadshare::dataqueue::{DataQueue, DataQueueState, NextItem};
use threadshare::item::{Buffer, BufferInfo, BufferList, DataQueueItem, Event, EventType};

type Queue = DataQueue<&'static str, &'static str, &'static str>;
type Item = DataQueueItem<&'static str, &'static str, &'static str>;

fn info(size: usize, pts: Option<u64>) -> BufferInfo {
    BufferInfo { size, dts: None, pts }
}

fn single(payload: &'static str, size: usize, pts: Option<u64>) -> Item {
    DataQueueItem::Buffer(Buffer { info: info(size, pts), payload })
}

fn list(payload: &'static str, buffers: Vec<BufferInfo>) -> Item {
    DataQueueItem::BufferList(BufferList { buffers, payload })
}

fn event(payload: &'static str, kind: EventType, sticky: bool) -> Item {
    DataQueueItem::Event(Event { kind, sticky, payload })
}

fn name(item: &Item) -> &'static str {
    match item {
        DataQueueItem::Buffer(buffer) => buffer.payload,
        DataQueueItem::BufferList(list) => list.payload,
        DataQueueItem::Event(event) => event.payload,
    }
}

fn take(queue: &mut Queue) -> &'static str {
    match queue.next() {
        NextItem::Item(item) => name(&item),
        NextItem::Wait(_) => "(wait)",
        NextItem::Stopped => "(stopped)",
    }
}

fn started(buffers: Option<u32>, bytes: Option<u32>, time: Option<u64>) -> Queue {
    let mut queue: Queue = DataQueue::new(buffers, bytes, time);
    queue.start();
    queue
}

#[test]
fn new_queue_is_stopped_and_refuses() {
    let mut queue: Queue = DataQueue::new(None, None, None);
    assert_eq!(queue.state(), DataQueueState::Stopped);
    let refused = queue.push(single("a", 10, None));
    assert_eq!(name(&refused.unwrap_err()), "a");
    assert_eq!(take(&mut queue), "(stopped)");
}

#[test]
fn items_leave_in_order() {
    let mut queue = started(None, None, None);
    assert!(queue.push(single("a", 1, None)).is_ok());
    assert!(queue.push(event("b", EventType::Other, false)).is_ok());
    assert_eq!(take(&mut queue), "a");
    assert!(queue.push(list("c", vec![info(5, None), info(6, None)])).is_ok());
    assert_eq!(take(&mut queue), "b");
    assert_eq!(take(&mut queue), "c");
    assert_eq!(take(&mut queue), "(wait)");
}

#[test]
fn sizes_of_items() {
    let several = list("l", vec![
        info(5, None),
        info(6, None),
        info(0, None),
    ]);
    assert_eq!(several.size(), (3, 11));
    assert_eq!(single("a", 1024, None).size(), (1, 1024));
    assert_eq!(event("e", EventType::Eos, true).size(), (0, 0));
    let empty = list("l", Vec::new());
    assert_eq!(empty.size(), (0, 0));
}

#[test]
fn sizes_are_counted_in_32_bits() {
    assert_eq!(single("a", (1usize << 32) + 7, None).size(), (1, 7));
    let several = list("l", vec![
        info((1usize << 32) - 1, None),
        info(1, None),
    ]);
    assert_eq!(several.checked_size(), None);
    let several = list("l", vec![
        info((1usize << 32) - 1, None),
        info(0, None),
    ]);
    assert_eq!(several.checked_size(), Some((2, u32::MAX)));
}

#[test]
fn timestamps_of_items() {
    let both: Item = DataQueueItem::Buffer(Buffer {
        info: BufferInfo { size: 1, dts: Some(5), pts: Some(9) },
        payload: "a",
    });
    assert_eq!(both.timestamp(), Some(5));
    assert_eq!(single("a", 1, Some(9)).timestamp(), Some(9));
    assert_eq!(single("a", 1, None).timestamp(), None);
    let several = list("l", vec![
        info(1, None),
        info(1, Some(3)),
        info(1, Some(4)),
    ]);
    assert_eq!(several.timestamp(), Some(3));
    assert_eq!(event("e", EventType::Eos, true).timestamp(), None);
}

#[test]
fn limit_in_buffers() {
    let mut queue = started(Some(2), None, None);
    assert!(queue.push(single("a", 1, None)).is_ok());
    assert!(queue.push(single("b", 1, None)).is_ok());
    assert_eq!(name(&queue.push(single("c", 1, None)).unwrap_err()), "c");
    assert_eq!(name(&queue.push(event("e", EventType::Eos, true)).unwrap_err()), "e");
    assert_eq!(take(&mut queue), "a");
    assert!(queue.push(single("d", 1, None)).is_ok());
    assert_eq!(take(&mut queue), "b");
    assert_eq!(take(&mut queue), "d");
}

#[test]
fn limit_in_buffers_can_be_overshot_by_a_list() {
    let mut queue = started(Some(2), None, None);
    assert!(queue.push(single("a", 1, None)).is_ok());
    assert!(queue.push(list("b", vec![info(1, None), info(1, None)])).is_ok());
    assert!(queue.push(single("d", 1, None)).is_err());
    assert_eq!(take(&mut queue), "a");
    assert!(queue.push(single("d", 1, None)).is_err());
    assert_eq!(take(&mut queue), "b");
    assert!(queue.push(single("d", 1, None)).is_ok());
}

#[test]
fn limit_in_bytes() {
    let mut queue = started(None, Some(100), None);
    assert!(queue.push(single("a", 99, None)).is_ok());
    assert!(queue.push(single("b", 50, None)).is_ok());
    assert!(queue.push(single("c", 1, None)).is_err());
    assert_eq!(take(&mut queue), "a");
    assert!(queue.push(single("c", 50, None)).is_ok());
    assert!(queue.push(single("d", 1, None)).is_err());
}

#[test]
fn limit_in_time() {
    let mut queue = started(None, None, Some(10));
    assert!(queue.push(event("e", EventType::Segment, true)).is_ok());
    assert!(queue.push(single("a", 1, Some(100))).is_ok());
    assert!(queue.push(single("b", 1, Some(109))).is_ok());
    assert!(queue.push(single("c", 1, Some(110))).is_err());
    assert!(queue.push(single("d", 1, Some(90))).is_err());
    assert!(queue.push(single("f", 1, Some(91))).is_ok());
    assert!(queue.push(single("g", 1, None)).is_ok());
    assert_eq!(take(&mut queue), "e");
    assert_eq!(take(&mut queue), "a");
    assert!(queue.push(single("c", 1, Some(110))).is_ok());
}

#[test]
fn zero_limit_refuses_everything() {
    let mut queue = started(Some(0), None, None);
    assert!(queue.push(event("e", EventType::Other, false)).is_err());
    let mut queue = started(None, Some(0), None);
    assert!(queue.push(event("e", EventType::Other, false)).is_err());
}

#[test]
fn paused_queue_holds_items_back() {
    let mut queue = started(None, None, None);
    assert!(queue.push(single("a", 1, None)).is_ok());
    queue.pause();
    queue.pause();
    assert_eq!(queue.state(), DataQueueState::Paused);
    assert!(queue.push(single("b", 1, None)).is_err());
    assert_eq!(take(&mut queue), "(wait)");
    queue.start();
    assert_eq!(take(&mut queue), "a");
}

#[test]
fn restart_keeps_items() {
    let mut queue = started(None, None, None);
    assert!(queue.push(single("a", 1, None)).is_ok());
    queue.stop();
    queue.stop();
    assert_eq!(take(&mut queue), "(stopped)");
    queue.start();
    queue.start();
    assert_eq!(take(&mut queue), "a");
}

#[test]
fn clear_returns_sticky_events_only() {
    let mut queue = started(None, None, None);
    assert!(queue.push(event("tag", EventType::Other, true)).is_ok());
    assert!(queue.push(single("a", 1, None)).is_ok());
    assert!(queue.push(event("segment", EventType::Segment, true)).is_ok());
    assert!(queue.push(event("gap", EventType::Other, false)).is_ok());
    assert!(queue.push(event("caps", EventType::Other, true)).is_ok());
    assert!(queue.push(event("eos", EventType::Eos, true)).is_ok());
    queue.pause();
    let events = queue.clear();
    let names: Vec<&str> = events.iter().map(|event| event.payload).collect();
    assert_eq!(names, vec!["tag", "caps"]);
    queue.start();
    assert_eq!(take(&mut queue), "(wait)");
}

#[test]
fn clear_leaves_the_levels() {
    let mut queue = started(Some(1), None, None);
    assert!(queue.push(single("a", 1, None)).is_ok());
    queue.pause();
    assert_eq!(queue.clear().len(), 0);
    queue.start();
    assert!(queue.push(single("b", 1, None)).is_err());
    assert_eq!(take(&mut queue), "(wait)");
}

fn wait(queue: &mut Queue) -> futures::channel::oneshot::Receiver<()> {
    match queue.next() {
        NextItem::Wait(receiver) => receiver,
        _ => panic!("nothing to wait for"),
    }
}

#[test]
fn push_wakes_the_consumer() {
    let mut queue = started(Some(1), None, None);
    let mut receiver = wait(&mut queue);
    assert_eq!(receiver.try_recv(), Ok(None));
    assert!(queue.push(single("a", 1, None)).is_ok());
    assert!(receiver.try_recv().is_err());
    assert!(futures::executor::block_on(receiver).is_err());
    assert_eq!(take(&mut queue), "a");
}

#[test]
fn refused_push_wakes_nobody() {
    let mut queue = started(Some(0), None, None);
    let mut receiver = wait(&mut queue);
    assert!(queue.push(single("a", 1, None)).is_err());
    assert_eq!(receiver.try_recv(), Ok(None));
}

#[test]
fn start_and_stop_wake_the_consumer() {
    let mut queue = started(None, None, None);
    queue.pause();
    let mut receiver = wait(&mut queue);
    queue.pause();
    assert_eq!(receiver.try_recv(), Ok(None));
    queue.start();
    assert!(receiver.try_recv().is_err());

    let mut receiver = wait(&mut queue);
    queue.start();
    assert_eq!(receiver.try_recv(), Ok(None));
    queue.pause();
    assert_eq!(receiver.try_recv(), Ok(None));
    assert_eq!(queue.clear().len(), 0);
    assert_eq!(receiver.try_recv(), Ok(None));
    queue.stop();
    assert!(receiver.try_recv().is_err());
}

#[test]
fn second_wait_replaces_the_first() {
    let mut queue = started(None, None, None);
    let mut first = wait(&mut queue);
    let mut second = wait(&mut queue);
    assert!(first.try_recv().is_err());
    assert_eq!(second.try_recv(), Ok(None));
}

#[test]
fn pushes_that_cannot_be_counted_are_foreseen() {
    let max = u32::MAX as usize;
    let mut queue = started(None, None, None);
    assert!(queue.can_push(&single("a", max, None)));
    assert!(queue.push(single("a", max, None)).is_ok());
    assert!(queue.can_push(&single("b", 0, None)));
    assert!(!queue.can_push(&single("b", 1, None)));
    queue.pause();
    assert!(queue.can_push(&single("b", 1, None)));
    let mut full = started(None, Some(1), None);
    assert!(full.push(single("a", max, None)).is_ok());
    assert!(full.can_push(&single("b", 1, None)));
    assert!(full.push(single("b", 1, None)).is_err());
}

#[test]
fn premature_shutdown_of_a_queue_of_one() {
    let mut queue = started(Some(1), None, None);
    assert!(queue.push(single("1", 1024, None)).is_ok());
    assert_eq!(take(&mut queue), "1");
    assert!(queue.push(single("2", 1024, None)).is_ok());
    queue.pause();
    assert!(queue.push(single("3", 1024, None)).is_err());
    queue.start();
    assert_eq!(take(&mut queue), "2");
    assert!(queue.push(single("4", 1024, None)).is_ok());
    assert_eq!(take(&mut queue), "4");
    assert!(queue.push(single("5", 1024, None)).is_ok());
    assert!(queue.push(single("6", 1024, None)).is_err());
    queue.stop();
    assert_eq!(take(&mut queue), "(stopped)");
}

#[test]
fn clearing_events_leaves_the_levels_exact() {
    let mut queue = started(Some(1), None, None);
    assert!(queue.push(event("e", EventType::Other, true)).is_ok());
    queue.pause();
    assert_eq!(queue.clear().len(), 1);
    queue.start();
    assert!(queue.push(single("a", 1, None)).is_ok());
    assert_eq!(take(&mut queue), "a");
    assert!(queue.push(single("b", 1, None)).is_ok());
}

#[test]
fn refused_list_comes_back_as_it_was() {
    let mut queue = started(Some(0), None, None);
    match queue.push(list("l", vec![info(5, Some(1)), info(6, None)])) {
        Err(DataQueueItem::BufferList(list)) => {
            assert_eq!(list.payload, "l");
            assert_eq!(list.buffers.len(), 2);
            assert_eq!(list.buffers[0].size, 5);
            assert_eq!(list.buffers[0].pts, Some(1));
        }
        _ => panic!("not refused"),
    }
}
