use std::sync::Arc;

use threadshare::message::{ErrorMessage, ResourceError};
use threadshare::pad_handler::{FlowError, PadEvent, PushAction, StateChangeSuccess};
use threadshare::pad_handler::StateChangeSuccess::{Async, NoPreroll, Success};
use threadshare::tcpclientsrc::{
    ChangeAction, ChangeEvent, CompletionAction, CompletionEvent, IpAddress, Operation,
    PauseAction, PauseEvent, PrepareAction, PrepareEvent, PushEvent, PushStep, SocketAction,
    SocketEvent, StartAction, StartEvent, TcpClientSrc, Transition, UnprepareAction,
    UnprepareEvent,
};

type Source = TcpClientSrc<&'static str>;

fn socket_failure(src: &mut Source, event: SocketEvent) -> (ResourceError, String) {
    let settings = src.settings.clone();
    match src.prepare_socket(&settings, event) {
        SocketAction::Fail(message) => (message.error, message.debug),
        _ => panic!("no failure"),
    }
}

fn prepared() -> Source {
    let mut src = Source::new();
    src.prepare(PrepareEvent::PreparationSpawned);
    let settings = src.settings.clone();
    src.prepare_socket(&settings, SocketEvent::SocketPrepared(Ok(())));
    src
}

fn describe(event: &PadEvent<&'static str>) -> String {
    match event {
        PadEvent::StreamStart { stream_id } => format!("start {}", stream_id),
        PadEvent::Caps(caps) => format!("caps {}", caps),
        PadEvent::Segment => "segment".to_string(),
        PadEvent::Eos => "eos".to_string(),
    }
}

/// Pushes a buffer of `size` bytes, and returns what went out and what is left to do.
/// Whether an event is taken is up to `taken`.
fn push(
    src: &mut Source,
    names: Option<(u32, u32)>,
    size: usize,
    taken: bool,
    result: Result<(), (FlowError, String)>,
) -> (Vec<String>, PushAction) {
    let mut calls = Vec::new();
    let mut result = Some(result);
    let mut event = PushEvent::Begin { size };
    loop {
        let step = match names {
            Some((high, low)) => src.push_buffer_named(high, low, event),
            None => src.push_buffer(event),
        };
        event = match step {
            PushStep::SendEvents(events) => {
                calls.extend(events.iter().map(describe));
                PushEvent::EventsPushed {
                    buffer: "the buffer",
                    taken: events.iter().map(|_| taken).collect(),
                }
            }
            PushStep::SendBuffer(buffer) => {
                calls.push(buffer.to_string());
                PushEvent::BufferPushed(result.take().unwrap())
            }
            PushStep::Finish(action) => return (calls, action),
        };
    }
}

#[test]
fn first_buffer_with_caps_goes_out() {
    let mut src = prepared();
    src.settings.caps = Some(Arc::new("foo/bar"));
    let (calls, action) = push(&mut src, Some((1, 2)), 10, true, Ok(()));
    assert_eq!(
        calls,
        vec!["start 0000000100000002", "caps foo/bar", "segment", "the buffer"]
    );
    assert!(matches!(action, PushAction::Continue));
    assert!(!src.pad_handler.need_initial_events);
    assert_eq!(src.pad_handler.configured_caps, Some(Arc::new("foo/bar")));
    src.settings.caps = Some(Arc::new("later"));
    let (calls, _) = push(&mut src, Some((3, 4)), 10, true, Ok(()));
    assert_eq!(calls, vec!["the buffer"]);
    assert_eq!(src.pad_handler.configured_caps, Some(Arc::new("foo/bar")));
    let (calls, _) = push(&mut src, None, 0, true, Ok(()));
    assert_eq!(calls, vec!["eos", "the buffer"]);
}

#[test]
fn first_empty_buffer_without_caps_goes_out() {
    let mut src = prepared();
    let (calls, action) = push(&mut src, Some((0xdeadbeef, 0x1a)), 0, true, Ok(()));
    assert_eq!(calls, vec!["start deadbeef0000001a", "segment", "eos", "the buffer"]);
    assert!(matches!(action, PushAction::Continue));
    assert_eq!(src.pad_handler.configured_caps, None);
}

#[test]
fn buffer_goes_out_though_no_event_is_taken() {
    let mut src = prepared();
    let flushing = Err((FlowError::Flushing, "Pad is flushing".to_string()));
    let (calls, action) = push(&mut src, Some((1, 2)), 10, false, flushing);
    assert_eq!(calls, vec!["start 0000000100000002", "segment", "the buffer"]);
    assert!(matches!(action, PushAction::PauseTask));
    let unlinked = Err((FlowError::NotLinked, "Pad is not linked".to_string()));
    let (calls, action) = push(&mut src, None, 10, false, unlinked);
    assert_eq!(calls, vec!["the buffer"]);
    match action {
        PushAction::PostError(failure) => {
            assert_eq!(failure.debug, "streaming stopped, reason Pad is not linked");
        }
        _ => panic!("no error"),
    }
}

#[test]
fn random_stream_names() {
    let (first, _) = push(&mut Source::new(), None, 10, true, Ok(()));
    let (second, _) = push(&mut Source::new(), None, 10, true, Ok(()));
    assert_eq!(first.len(), 3);
    assert_eq!(first[0].len(), "start ".len() + 16);
    let name = &first[0]["start ".len()..];
    assert!(name.chars().all(|c| c.is_ascii_hexdigit()));
    assert_ne!(name[..8], name[8..]);
    assert_eq!(first[1], "segment");
    assert_ne!(first[0], second[0]);
}

#[test]
fn preparation() {
    let mut src = Source::new();
    src.settings.context = "shared".to_string();
    src.settings.context_wait = 20;
    match src.prepare(PrepareEvent::Begin) {
        PrepareAction::AcquireContext { name, wait } => {
            assert_eq!(name, "shared");
            assert_eq!(wait, 20);
        }
        _ => panic!("no context"),
    }
    let action = src.prepare(PrepareEvent::ContextAcquired(Ok(())));
    assert!(matches!(action, PrepareAction::SpawnPreparation));
    assert!(!src.preparation);
    let action = src.prepare(PrepareEvent::PreparationSpawned);
    assert!(matches!(action, PrepareAction::Done));
    assert!(src.preparation);
    match src.prepare(PrepareEvent::ContextAcquired(Err("too many".to_string()))) {
        PrepareAction::Fail(message) => {
            assert_eq!(message.error, ResourceError::OpenRead);
            assert_eq!(message.debug, "Failed to acquire Context: too many");
        }
        _ => panic!("no failure"),
    }
}

#[test]
fn preparation_of_the_socket() {
    let mut src = Source::new();
    src.settings.port = 65536 + 4711;
    let settings = src.settings.clone();
    match src.prepare_socket(&settings, SocketEvent::Begin) {
        SocketAction::ParseAddress(address) => assert_eq!(address, "127.0.0.1"),
        _ => panic!("no address"),
    }
    let parsed = IpAddress::V4([127, 0, 0, 1]);
    match src.prepare_socket(&settings, SocketEvent::AddressParsed(Ok(parsed))) {
        SocketAction::Connect { address, port } => {
            assert_eq!(address, parsed);
            assert_eq!(port, 4711);
        }
        _ => panic!("no connection"),
    }
    let parsed = IpAddress::V6([0, 1, 2, 3, 4, 5, 6, 7, 8, 9, 10, 11, 12, 13, 14, 15]);
    match src.prepare_socket(&settings, SocketEvent::AddressParsed(Ok(parsed))) {
        SocketAction::Connect { address, .. } => assert_eq!(address, parsed),
        _ => panic!("no connection"),
    }
    let action = src.prepare_socket(&settings, SocketEvent::Connected(Ok(())));
    assert!(matches!(action, SocketAction::ConfigurePool { chunk_size: 4096 }));
    let action = src.prepare_socket(&settings, SocketEvent::PoolConfigured(Ok(())));
    assert!(matches!(action, SocketAction::PrepareSocket));
    assert!(!src.socket && !src.socket_stream);
    let action = src.prepare_socket(&settings, SocketEvent::SocketPrepared(Ok(())));
    assert!(matches!(action, SocketAction::Done));
    assert!(src.socket && src.socket_stream);
}

#[test]
fn failures_of_the_socket() {
    let mut src = Source::new();
    src.settings.address = Some("nowhere".to_string());
    assert_eq!(
        socket_failure(&mut src, SocketEvent::AddressParsed(Err("bad syntax".to_string()))),
        (ResourceError::Settings, "Invalid address 'nowhere' set: bad syntax".to_string())
    );
    let refused = ("127.0.0.1:5000".to_string(), "ConnectionRefused".to_string());
    assert_eq!(
        socket_failure(&mut src, SocketEvent::Connected(Err(refused))),
        (
            ResourceError::Settings,
            "Failed to connect to 127.0.0.1:5000 ConnectionRefused".to_string()
        )
    );
    assert_eq!(
        socket_failure(&mut src, SocketEvent::PoolConfigured(Err(()))),
        (ResourceError::Settings, "Failed to configure buffer pool".to_string())
    );
    assert_eq!(
        socket_failure(&mut src, SocketEvent::SocketPrepared(Err("Inactive".to_string()))),
        (ResourceError::OpenRead, "Failed to prepare socket Inactive".to_string())
    );
    src.settings.address = None;
    assert_eq!(
        socket_failure(&mut src, SocketEvent::Begin),
        (ResourceError::Settings, "No address set".to_string())
    );
    assert!(!src.socket && !src.socket_stream);
}

#[test]
fn completion() {
    let mut src = prepared();
    let action = src.complete_preparation(CompletionEvent::Begin);
    assert!(matches!(action, CompletionAction::Join));
    assert!(!src.preparation);
    let action = src.complete_preparation(CompletionEvent::Joined(Ok(())));
    assert!(matches!(action, CompletionAction::PreparePad));
    let action = src.complete_preparation(CompletionEvent::PadPrepared(Ok(())));
    assert!(matches!(action, CompletionAction::Done));

    let failed = ErrorMessage {
        error: ResourceError::Settings,
        debug: "No address set".to_string(),
    };
    match src.complete_preparation(CompletionEvent::Joined(Err(failed))) {
        CompletionAction::Fail(message) => {
            assert_eq!(message.error, ResourceError::Settings);
            assert_eq!(message.debug, "No address set");
        }
        _ => panic!("no failure"),
    }
    match src.complete_preparation(CompletionEvent::PadPrepared(Err("Busy".to_string()))) {
        CompletionAction::Fail(message) => {
            assert_eq!(message.error, ResourceError::OpenRead);
            assert_eq!(message.debug, "Error preparing src_pads: Busy");
        }
        _ => panic!("no failure"),
    }
}

#[test]
fn start_and_pause() {
    let src = Source::new();
    assert_eq!(src.start(StartEvent::Begin), StartAction::StartTask);
    let src = prepared();
    assert_eq!(src.start(StartEvent::Begin), StartAction::StartSocket);
    assert_eq!(src.start(StartEvent::SocketStarted), StartAction::StartTask);
    assert_eq!(src.start(StartEvent::TaskStarted), StartAction::Done);
    assert_eq!(src.pause(PauseEvent::Begin), PauseAction::PauseTask);
    assert_eq!(src.pause(PauseEvent::TaskPausing), PauseAction::PauseSocket);
    assert_eq!(src.pause(PauseEvent::SocketPaused), PauseAction::AwaitTask);
    assert_eq!(src.pause(PauseEvent::TaskPaused), PauseAction::Done);
}

#[test]
fn undoing_a_preparation() {
    let mut src = prepared();
    src.settings.caps = Some(Arc::new("foo/bar"));
    push(&mut src, None, 10, true, Ok(()));
    assert_eq!(src.unprepare(UnprepareEvent::Begin), UnprepareAction::StopTask);
    assert!(src.socket);
    assert_eq!(src.unprepare(UnprepareEvent::TaskStopped), UnprepareAction::UnprepareSocket);
    assert!(!src.socket);
    assert_eq!(src.unprepare(UnprepareEvent::SocketUnprepared), UnprepareAction::UnpreparePad);
    assert_eq!(src.pad_handler.configured_caps, Some(Arc::new("foo/bar")));
    assert_eq!(src.unprepare(UnprepareEvent::PadUnprepared), UnprepareAction::Done);
    assert_eq!(src.pad_handler.configured_caps, None);
}

#[test]
fn operations_of_transitions() {
    let mut src = Source::new();
    let expected = vec![
        (Transition::NullToReady, Some(Operation::Prepare)),
        (Transition::ReadyToPaused, Some(Operation::CompletePreparation)),
        (Transition::PausedToPlaying, None),
        (Transition::PlayingToPaused, Some(Operation::Pause)),
        (Transition::PausedToReady, None),
        (Transition::ReadyToNull, Some(Operation::Unprepare)),
        (Transition::Other, None),
    ];
    for (transition, operation) in expected {
        match src.change_state(transition, ChangeEvent::Begin) {
            ChangeAction::Run(run) => assert_eq!(Some(run), operation),
            ChangeAction::ChangeParent => assert_eq!(None, operation),
            _ => panic!("neither an operation nor the parent"),
        }
    }
}

#[test]
fn successful_changes_of_state() {
    let mut src = Source::new();
    let action = src.change_state(Transition::NullToReady, ChangeEvent::Operated(Ok(())));
    assert!(matches!(action, ChangeAction::ChangeParent));
    let action =
        src.change_state(Transition::NullToReady, ChangeEvent::ParentChanged(Ok(NoPreroll)));
    assert!(matches!(action, ChangeAction::Finish(NoPreroll)));
    let action = src.change_state(Transition::ReadyToPaused, ChangeEvent::ParentChanged(Ok(Async)));
    assert!(matches!(action, ChangeAction::Finish(Success)));
    let action =
        src.change_state(Transition::PausedToPlaying, ChangeEvent::ParentChanged(Ok(Async)));
    assert!(matches!(action, ChangeAction::Start(Async)));
    let action = src.change_state(Transition::PausedToPlaying, ChangeEvent::Started(Async, Ok(())));
    assert!(matches!(action, ChangeAction::Finish(Async)));
}

#[test]
fn failed_changes_of_state() {
    let mut src = Source::new();
    let failed = ErrorMessage { error: ResourceError::OpenRead, debug: "why".to_string() };
    match src.change_state(Transition::NullToReady, ChangeEvent::Operated(Err(Some(failed)))) {
        ChangeAction::Fail(Some(message)) => assert_eq!(message.debug, "why"),
        _ => panic!("no message"),
    }
    let action = src.change_state(Transition::ReadyToNull, ChangeEvent::Operated(Err(None)));
    assert!(matches!(action, ChangeAction::Fail(None)));
    src.pad_handler.need_initial_events = false;
    let action = src.change_state(Transition::PausedToReady, ChangeEvent::ParentChanged(Err(())));
    assert!(matches!(action, ChangeAction::Fail(None)));
    assert!(!src.pad_handler.need_initial_events);
    let started = ChangeEvent::Started(StateChangeSuccess::Success, Err(()));
    let action = src.change_state(Transition::PausedToPlaying, started);
    assert!(matches!(action, ChangeAction::Fail(None)));
}

#[test]
fn ready_again_opens_a_new_stream() {
    let mut src = prepared();
    assert_eq!(push(&mut src, None, 10, true, Ok(())).0.len(), 3);
    assert_eq!(push(&mut src, None, 10, true, Ok(())).0.len(), 1);
    let changed = ChangeEvent::ParentChanged(Ok(StateChangeSuccess::Success));
    src.change_state(Transition::PausedToReady, changed);
    assert!(src.pad_handler.need_initial_events);
    assert_eq!(push(&mut src, None, 10, true, Ok(())).0.len(), 3);
}

#[test]
fn life_cycle() {
    let mut src = prepared();
    assert!(src.preparation && src.socket);
    src.complete_preparation(CompletionEvent::Begin);
    assert!(!src.preparation && src.socket && src.socket_stream);
    src.settings.caps = Some(Arc::new("foo/bar"));
    push(&mut src, None, 10, true, Ok(()));
    assert_eq!(src.pause(PauseEvent::TaskPausing), PauseAction::PauseSocket);
    let changed = ChangeEvent::ParentChanged(Ok(Success));
    src.change_state(Transition::PausedToReady, changed);
    src.unprepare(UnprepareEvent::TaskStopped);
    src.unprepare(UnprepareEvent::PadUnprepared);
    assert!(!src.socket && src.socket_stream && !src.preparation);
    assert!(src.pad_handler.need_initial_events);
    assert_eq!(src.pad_handler.configured_caps, None);
    assert_eq!(src.settings.port, 5000);
}

#[test]
fn failed_parent_keeps_the_preparation() {
    let mut src = Source::new();
    let action = src.change_state(Transition::NullToReady, ChangeEvent::Begin);
    assert!(matches!(action, ChangeAction::Run(Operation::Prepare)));
    src.prepare(PrepareEvent::PreparationSpawned);
    src.change_state(Transition::NullToReady, ChangeEvent::Operated(Ok(())));
    let action = src.change_state(Transition::NullToReady, ChangeEvent::ParentChanged(Err(())));
    assert!(matches!(action, ChangeAction::Fail(None)));
    assert!(src.preparation);
}
