use std::sync::Arc;

use threadshare::item::EventType;
use threadshare::pad_handler::{
    after_push, handle_item, src_event, starts_after_flush, CapsAnswer, EventAction,
    FlowError, PadEvent, PushAction, Query, QueryAnswer, SocketError, TaskAction,
    TcpClientSrcPadHandler,
};
use threadshare::pad_handler::ElementState::{Paused, Playing, VoidPending};
use threadshare::pad_handler::StateChangeSuccess::{Async, NoPreroll, Success};
use threadshare::stream_id::stream_id;

fn describe(events: &Vec<PadEvent<&'static str>>) -> Vec<String> {
    events
        .iter()
        .map(|event| match event {
            PadEvent::StreamStart { stream_id } => format!("start {}", stream_id),
            PadEvent::Caps(caps) => format!("caps {}", caps),
            PadEvent::Segment => "segment".to_string(),
            PadEvent::Eos => "eos".to_string(),
        })
        .collect()
}

#[test]
fn stream_ids() {
    assert_eq!(stream_id(0, 0), "0000000000000000");
    assert_eq!(stream_id(0xdeadbeef, 0x1a), "deadbeef0000001a");
    assert_eq!(stream_id(0x01234567, 0x89abcdef), "0123456789abcdef");
    assert_eq!(stream_id(7, 8), format!("{:08x}{:08x}", 7, 8));
}

#[test]
fn first_buffer_opens_the_stream() {
    let mut handler = TcpClientSrcPadHandler::<&'static str>::default();
    let caps = Some(Arc::new("foo/bar"));
    let events = handler.take_events(1, 2, &caps, 10);
    assert_eq!(
        describe(&events),
        vec!["start 0000000100000002", "caps foo/bar", "segment"]
    );
    assert_eq!(handler.configured_caps, caps);
    assert!(!handler.need_initial_events);
    assert_eq!(describe(&handler.take_events(3, 4, &caps, 10)).len(), 0);
    assert_eq!(describe(&handler.take_events(5, 6, &caps, 0)), vec!["eos"]);
}

#[test]
fn first_buffer_without_caps() {
    let mut handler = TcpClientSrcPadHandler::<&'static str>::default();
    handler.configured_caps = Some(Arc::new("kept"));
    let events = handler.take_events(1, 2, &None, 0);
    assert_eq!(describe(&events), vec!["start 0000000100000002", "segment", "eos"]);
    assert_eq!(handler.configured_caps, Some(Arc::new("kept")));
}

#[test]
fn outcomes_of_a_push() {
    assert!(matches!(after_push(Ok(())), PushAction::Continue));
    let flushing = after_push(Err((FlowError::Flushing, "flushing".to_string())));
    assert!(matches!(flushing, PushAction::PauseTask));
    let eos = after_push(Err((FlowError::Eos, "eos".to_string())));
    assert!(matches!(eos, PushAction::PauseTask));
    match after_push(Err((FlowError::CustomError, "custom".to_string()))) {
        PushAction::PostError(failure) => {
            assert_eq!(failure.message, "Internal data stream error");
            assert_eq!(failure.debug, "streaming stopped, reason custom");
        }
        _ => panic!("no error"),
    }
}

#[test]
fn outcomes_of_a_read() {
    assert!(matches!(handle_item::<u32>(Some(Ok(7))), TaskAction::Push(7)));
    assert!(matches!(handle_item::<u32>(None), TaskAction::PauseTask));
    let custom = SocketError::Flow(FlowError::CustomError, "custom".to_string());
    assert!(matches!(handle_item::<u32>(Some(Err(custom))), TaskAction::Continue));
    let flow = SocketError::Flow(FlowError::Eos, "Pad is EOS".to_string());
    match handle_item::<u32>(Some(Err(flow))) {
        TaskAction::PostError(failure) => {
            assert_eq!(failure.message, "Internal data stream error");
            assert_eq!(failure.debug, "streaming stopped, reason Pad is EOS");
        }
        _ => panic!("no error"),
    }
    match handle_item::<u32>(Some(Err(SocketError::Io("reset".to_string())))) {
        TaskAction::PostError(failure) => {
            assert_eq!(failure.message, "I/O error");
            assert_eq!(failure.debug, "streaming stopped, I/O error reset");
        }
        _ => panic!("no error"),
    }
}

#[test]
fn events_from_further_down() {
    assert_eq!(src_event(EventType::FlushStart), EventAction::Pause);
    assert_eq!(src_event(EventType::FlushStop), EventAction::StartIfPlaying);
    assert_eq!(src_event(EventType::Reconfigure), EventAction::Nothing);
    assert_eq!(src_event(EventType::Latency), EventAction::Nothing);
    assert_eq!(src_event(EventType::Other), EventAction::Unhandled);
    assert_eq!(src_event(EventType::Segment), EventAction::Unhandled);
    assert!(src_event(EventType::FlushStop).handled());
    assert!(!src_event(EventType::Eos).handled());
}

#[test]
fn flush_stop_starts_a_playing_element() {
    assert!(starts_after_flush(Ok(Success), Playing, VoidPending));
    assert!(!starts_after_flush(Ok(Success), Paused, Playing));
    assert!(starts_after_flush(Ok(Async), Paused, Playing));
    assert!(!starts_after_flush(Ok(Async), Playing, Paused));
    assert!(!starts_after_flush(Ok(NoPreroll), Playing, Playing));
    assert!(!starts_after_flush(Err(()), Playing, Playing));
}

#[test]
fn answers_to_queries() {
    let mut handler = TcpClientSrcPadHandler::<&'static str>::default();
    assert!(matches!(
        handler.src_query(Query::Latency),
        QueryAnswer::Latency { live: false, min: 0, max: 0 }
    ));
    assert!(matches!(
        handler.src_query(Query::Scheduling),
        QueryAnswer::Scheduling { sequential: true, min_size: 1, max_size: -1, align: 0, push: true }
    ));
    assert!(matches!(handler.src_query(Query::Other), QueryAnswer::Unhandled));

    let any = handler.src_query(Query::Caps { filter: None });
    assert!(matches!(any, QueryAnswer::Caps(CapsAnswer::Any)));
    let filter = Some(Arc::new("filter"));
    match handler.src_query(Query::Caps { filter: filter.clone() }) {
        QueryAnswer::Caps(CapsAnswer::Only(caps)) => assert_eq!(*caps, "filter"),
        _ => panic!("no caps"),
    }
    handler.configured_caps = Some(Arc::new("fixed"));
    match handler.src_query(Query::Caps { filter: None }) {
        QueryAnswer::Caps(CapsAnswer::Only(caps)) => assert_eq!(*caps, "fixed"),
        _ => panic!("no caps"),
    }
    match handler.src_query(Query::Caps { filter }) {
        QueryAnswer::Caps(CapsAnswer::Intersection { filter, caps }) => {
            assert_eq!(*filter, "filter");
            assert_eq!(*caps, "fixed");
        }
        _ => panic!("no caps"),
    }
}
