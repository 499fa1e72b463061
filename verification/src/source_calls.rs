//! What a call on a TCP client source gives, by what goes in and what comes out.

use vstd::prelude::*;

use crate::message::ResourceError;
use crate::pad_handler::{FlowError, PadEvent, PadHandlerView, PushAction};
use crate::settings::Settings;
use crate::stream_id::{drawn, stream_id_of};
use crate::tcpclientsrc::{
    ChangeAction, ChangeEvent, CompletionAction, CompletionEvent, Operation, PauseAction,
    PauseEvent, PrepareAction, PrepareEvent, PushEvent, PushStep, SocketAction, SocketEvent,
    StartAction, StartEvent, TcpClientSrc, TcpClientSrcView, Transition, UnprepareAction,
    UnprepareEvent,
};

verus! {

/// The abstract state of a source is what its fields hold.
pub proof fn law_state_is_what_the_fields_hold<C>(src: &TcpClientSrc<C>)
    ensures
        src@.socket == src.socket,
        src@.socket_stream == src.socket_stream,
        src@.preparation == src.preparation,
        src@.pad_handler.need_initial_events == src.pad_handler.need_initial_events,
        src@.pad_handler.configured_caps == src.pad_handler.configured_caps,
        src@.settings.address is Some <==> src.settings.address is Some,
        src.settings.address is Some ==> src@.settings.address->0 == src.settings.address->0@,
        src@.settings.port == src.settings.port,
        src@.settings.caps == src.settings.caps,
        src@.settings.chunk_size == src.settings.chunk_size,
        src@.settings.context == src.settings.context@,
        src@.settings.context_wait == src.settings.context_wait,
{
}

/// A new source receives from port 5000 of this machine in chunks of 4096 bytes, shares
/// the thread of the nameless context without a pause, and announces no caps. It has
/// neither a socket nor a preparation under way, and its first buffer opens a stream.
pub proof fn law_new_source<C>(src: TcpClientSrc<C>)
    requires
        call_ensures(TcpClientSrc::<C>::new, (), src),
    ensures
        src.settings.address is Some,
        src.settings.address->0@ == "127.0.0.1"@,
        src.settings.port == 5000,
        src.settings.caps is None,
        src.settings.chunk_size == 4096,
        src.settings.context@ == ""@,
        src.settings.context_wait == 0,
        src.pad_handler.need_initial_events,
        src.pad_handler.configured_caps is None,
        !src.socket,
        !src.socket_stream,
        !src.preparation,
{
}

/// Preparing a source gets the context of its settings, and where that can be had has it
/// prepare the socket. From then on a preparation is under way; nothing else changes. A
/// context that cannot be had is reported, with the reason.
pub proof fn law_preparing_a_source<C>(
    src: &mut TcpClientSrc<C>,
    event: PrepareEvent,
    action: PrepareAction,
)
    requires
        call_ensures(TcpClientSrc::<C>::prepare, (src, event), action),
    ensures
        action is AcquireContext <==> event is Begin,
        action is SpawnPreparation <==> (event matches PrepareEvent::ContextAcquired(Ok(_))),
        action is Fail <==> (event matches PrepareEvent::ContextAcquired(Err(_))),
        action is Done <==> event is PreparationSpawned,
        action matches PrepareAction::AcquireContext { name, wait } ==> {
            &&& name@ == old(src).settings.context@
            &&& wait == old(src).settings.context_wait
        },
        action matches PrepareAction::Fail(message) ==> (
        event matches PrepareEvent::ContextAcquired(Err(error)) && {
            &&& message.error == ResourceError::OpenRead
            &&& message.debug@ == "Failed to acquire Context: "@ + error@
        }),
        final(src)@ == (TcpClientSrcView {
            preparation: old(src)@.preparation || event is PreparationSpawned,
            ..old(src)@
        }),
{
}

/// Preparing a socket reads the address of the settings, connects to what was read and
/// to the low 16 bits of their port, configures a pool for buffers of their size, and
/// makes the socket. Each step comes just after the one before it succeeded.
pub proof fn law_steps_of_preparing_a_socket<C>(
    src: &mut TcpClientSrc<C>,
    settings: &Settings<C>,
    event: SocketEvent,
    action: SocketAction,
)
    requires
        call_ensures(TcpClientSrc::<C>::prepare_socket, (src, settings, event), action),
    ensures
        action is ParseAddress <==> event is Begin && settings.address is Some,
        action is Connect <==> (event matches SocketEvent::AddressParsed(Ok(_))),
        action is ConfigurePool <==> (event matches SocketEvent::Connected(Ok(_))),
        action is PrepareSocket <==> (event matches SocketEvent::PoolConfigured(Ok(_))),
        action is Done <==> (event matches SocketEvent::SocketPrepared(Ok(_))),
        action matches SocketAction::ParseAddress(text) ==> text@ == settings.address->0@,
        action matches SocketAction::Connect { address, port } ==> {
            &&& event == SocketEvent::AddressParsed(Ok(address))
            &&& port == settings.port % 0x1_0000
        },
        action matches SocketAction::ConfigurePool { chunk_size } ==> chunk_size
            == settings.chunk_size,
{
}

/// Preparing a socket fails just where there is no address or a step failed, and says
/// which, with the reason. It changes the source just where it succeeded: then there is
/// a socket, and a stream of buffers from it.
pub proof fn law_failures_of_preparing_a_socket<C>(
    src: &mut TcpClientSrc<C>,
    settings: &Settings<C>,
    event: SocketEvent,
    action: SocketAction,
)
    requires
        call_ensures(TcpClientSrc::<C>::prepare_socket, (src, settings, event), action),
    ensures
        action is Fail <==> match event {
            SocketEvent::Begin => settings.address is None,
            SocketEvent::AddressParsed(parsed) => parsed is Err,
            SocketEvent::Connected(connected) => connected is Err,
            SocketEvent::PoolConfigured(configured) => configured is Err,
            SocketEvent::SocketPrepared(prepared) => prepared is Err,
        },
        action matches SocketAction::Fail(message) ==> {
            &&& message.error is OpenRead <==> event is SocketPrepared
            &&& match event {
                SocketEvent::Begin => message.debug@ == "No address set"@,
                SocketEvent::AddressParsed(parsed) => settings.address is Some ==> message.debug@
                    == "Invalid address '"@ + settings.address->0@ + "' set: "@
                    + parsed->Err_0@,
                SocketEvent::Connected(connected) => message.debug@ == "Failed to connect to "@
                    + connected->Err_0.0@ + " "@ + connected->Err_0.1@,
                SocketEvent::PoolConfigured(_) => message.debug@
                    == "Failed to configure buffer pool"@,
                SocketEvent::SocketPrepared(prepared) => message.debug@
                    == "Failed to prepare socket "@ + prepared->Err_0@,
            }
        },
        action is Done ==> final(src)@ == (TcpClientSrcView {
            socket: true,
            socket_stream: true,
            ..old(src)@
        }),
        !(action is Done) ==> final(src)@ == old(src)@,
{
    reveal_strlit("");
    if let SocketAction::Fail(message) = action {
        if event is Begin {
            assert(message.debug@ =~= "No address set"@);
        }
        if event is PoolConfigured {
            assert(message.debug@ =~= "Failed to configure buffer pool"@);
        }
    }
}

/// Completing a preparation waits for that of the socket, which uses it up, and prepares
/// the pad where the socket was prepared. It fails with the very message of the socket,
/// or where the pad cannot be prepared, with the reason. Nothing else changes.
pub proof fn law_completing_a_preparation<C>(
    src: &mut TcpClientSrc<C>,
    event: CompletionEvent,
    action: CompletionAction,
)
    requires
        call_ensures(TcpClientSrc::<C>::complete_preparation, (src, event), action),
    ensures
        action is Join <==> event is Begin,
        action is PreparePad <==> (event matches CompletionEvent::Joined(Ok(_))),
        action is Done <==> (event matches CompletionEvent::PadPrepared(Ok(_))),
        action matches CompletionAction::Fail(message) ==> match event {
            CompletionEvent::Joined(Err(failed)) => {
                message.error == failed.error && message.debug@ == failed.debug@
            },
            CompletionEvent::PadPrepared(Err(error)) => {
                &&& message.error == ResourceError::OpenRead
                &&& message.debug@ == "Error preparing src_pads: "@ + error@
            },
            _ => false,
        },
        final(src)@ == (TcpClientSrcView {
            preparation: old(src)@.preparation && !(event is Begin),
            ..old(src)@
        }),
{
}

/// Undoing a preparation stops the task, takes the socket, which is then gone, undoes
/// the preparation of the pad, and forgets the announced caps. Nothing else changes.
pub proof fn law_undoing_a_preparation<C>(
    src: &mut TcpClientSrc<C>,
    event: UnprepareEvent,
    action: UnprepareAction,
)
    requires
        call_ensures(TcpClientSrc::<C>::unprepare, (src, event), action),
    ensures
        action is StopTask <==> event is Begin,
        action is UnprepareSocket <==> event is TaskStopped,
        action is UnpreparePad <==> event is SocketUnprepared,
        action is Done <==> event is PadUnprepared,
        final(src)@ == (TcpClientSrcView {
            socket: old(src)@.socket && !(event is TaskStopped),
            pad_handler: PadHandlerView {
                configured_caps: if event is PadUnprepared {
                    None
                } else {
                    old(src)@.pad_handler.configured_caps
                },
                ..old(src)@.pad_handler
            },
            ..old(src)@
        }),
{
}

/// Starting a source starts its socket, just where there is one, and after that, or
/// right away where there is none, its task.
pub proof fn law_starting_a_source<C>(
    src: &TcpClientSrc<C>,
    event: StartEvent,
    action: StartAction,
)
    requires
        call_ensures(TcpClientSrc::<C>::start, (src, event), action),
    ensures
        action is StartSocket <==> event is Begin && src.socket,
        action is StartTask <==> event is SocketStarted || event is Begin && !src.socket,
        action is Done <==> event is TaskStarted,
{
}

/// Pausing a source tells its task to pause, then pauses its socket, and then waits for
/// the task.
pub proof fn law_pausing_a_source<C>(
    src: &TcpClientSrc<C>,
    event: PauseEvent,
    action: PauseAction,
)
    requires
        call_ensures(TcpClientSrc::<C>::pause, (src, event), action),
    ensures
        action is PauseTask <==> event is Begin,
        action is PauseSocket <==> event is TaskPausing,
        action is AwaitTask <==> event is SocketPaused,
        action is Done <==> event is TaskPaused,
{
}

/// Pushing a buffer begins with the events before it: the start of the stream, the caps
/// of the settings and the segment for the buffer that opens a stream, and the end of
/// the stream for an empty one. That buffer uses up the opening, and its caps are
/// remembered. Nothing else changes, and nothing changes after that.
pub proof fn law_pushing_begins_with_events<B, C>(
    src: &mut TcpClientSrc<C>,
    high: u32,
    low: u32,
    event: PushEvent<B>,
    step: PushStep<B, C>,
)
    requires
        call_ensures(TcpClientSrc::<C>::push_buffer_named::<B>, (src, high, low, event), step),
    ensures
        step is SendEvents <==> event is Begin,
        ({
            let opens = old(src).pad_handler.need_initial_events;
            let caps = old(src).settings.caps;
            let opening: int = if !opens {
                0
            } else if caps is Some {
                3
            } else {
                2
            };
            &&& step matches PushStep::SendEvents(events) ==> {
                let ends = event->size == 0;
                &&& events@.len() == opening + if ends {
                    1int
                } else {
                    0
                }
                &&& opens ==> (events@[0] matches PadEvent::StreamStart { stream_id }
                    && stream_id@ == stream_id_of(high, low))
                &&& opens && caps is Some ==> events@[1] == PadEvent::Caps(caps->0)
                &&& opens ==> events@[opening - 1] is Segment
                &&& ends ==> events@[opening] is Eos
            }
            &&& event is Begin ==> final(src)@ == (TcpClientSrcView {
                pad_handler: PadHandlerView {
                    need_initial_events: false,
                    configured_caps: if opens && caps is Some {
                        caps
                    } else {
                        old(src)@.pad_handler.configured_caps
                    },
                },
                ..old(src)@
            })
            &&& !(event is Begin) ==> final(src)@ == old(src)@
        }),
{
    if let PushStep::SendEvents(events) = step {
        let views = events@.map_values(|event: PadEvent<C>| event@);
        assert(views.len() == events@.len());
        assert forall|i: int| 0 <= i < events@.len() implies views[i] == (
        #[trigger] events@[i])@ by {}
    }
}

/// Once the events before it were pushed, whether or not they were taken, the buffer is
/// pushed, that very one. Once it was pushed, the source goes on just where that
/// succeeded, pauses its task just where the pad flushes or is at its end, and reports
/// every other error, with its description.
pub proof fn law_pushing_ends_with_the_buffer<B, C>(
    src: &mut TcpClientSrc<C>,
    high: u32,
    low: u32,
    event: PushEvent<B>,
    step: PushStep<B, C>,
)
    requires
        call_ensures(TcpClientSrc::<C>::push_buffer_named::<B>, (src, high, low, event), step),
    ensures
        step is SendBuffer <==> event is EventsPushed,
        step is Finish <==> event is BufferPushed,
        step matches PushStep::SendBuffer(buffer) ==> event->buffer == buffer,
        step matches PushStep::Finish(action) ==> (event matches PushEvent::BufferPushed(result)
            && {
            &&& action is Continue <==> result is Ok
            &&& action is PauseTask <==> (result matches Err((error, _)) && (error
                == FlowError::Flushing || error == FlowError::Eos))
            &&& action matches PushAction::PostError(failure) ==> {
                &&& failure.message@ == "Internal data stream error"@
                &&& failure.debug@ == "streaming stopped, reason "@ + result->Err_0.1@
            }
        }),
{
}

/// Pushing a buffer under a random name is pushing it under the name of some two
/// numbers, which were drawn where the buffer opens a stream.
pub proof fn law_pushing_under_a_random_name<B, C>(
    src: &mut TcpClientSrc<C>,
    event: PushEvent<B>,
    step: PushStep<B, C>,
)
    requires
        call_ensures(TcpClientSrc::<C>::push_buffer::<B>, (src, event), step),
    ensures
        step is SendEvents <==> event is Begin,
        step is SendBuffer <==> event is EventsPushed,
        step is Finish <==> event is BufferPushed,
        step matches PushStep::SendEvents(events) ==> {
            let opens = old(src).pad_handler.need_initial_events;
            let caps = old(src).settings.caps;
            let opening: int = if !opens {
                0
            } else if caps is Some {
                3
            } else {
                2
            };
            let ends = event->size == 0;
            &&& events@.len() == opening + if ends {
                1int
            } else {
                0
            }
            &&& opens ==> (events@[0] matches PadEvent::StreamStart { stream_id }
                && exists|high: u32, low: u32| #[trigger]
                drawn(high, low) && stream_id@ == stream_id_of(high, low))
            &&& opens && caps is Some ==> events@[1] == PadEvent::Caps(caps->0)
            &&& opens ==> events@[opening - 1] is Segment
            &&& ends ==> events@[opening] is Eos
        },
        step matches PushStep::SendBuffer(buffer) ==> event->buffer == buffer,
        step matches PushStep::Finish(action) ==> (event matches PushEvent::BufferPushed(result)
            && {
            &&& action is Continue <==> result is Ok
            &&& action is PauseTask <==> (result matches Err((error, _)) && (error
                == FlowError::Flushing || error == FlowError::Eos))
            &&& action matches PushAction::PostError(failure) ==> {
                &&& failure.message@ == "Internal data stream error"@
                &&& failure.debug@ == "streaming stopped, reason "@ + result->Err_0.1@
            }
        }),
        final(src)@ == (TcpClientSrcView {
            pad_handler: PadHandlerView {
                need_initial_events: old(src)@.pad_handler.need_initial_events && !(
                event is Begin),
                configured_caps: if event is Begin && old(src)@.pad_handler.need_initial_events
                    && old(src)@.settings.caps is Some {
                    old(src)@.settings.caps
                } else {
                    old(src)@.pad_handler.configured_caps
                },
            },
            ..old(src)@
        }),
{
    let (high, low) = choose|high: u32, low: u32|
        {
            &&& event is Begin && old(src)@.pad_handler.need_initial_events ==> drawn(high, low)
            &&& step@ == old(src)@.push_step(#[trigger] stream_id_of(high, low), event)
        };
    if let PushStep::SendEvents(events) = step {
        let views = events@.map_values(|event: PadEvent<C>| event@);
        assert(views.len() == events@.len());
        assert forall|i: int| 0 <= i < events@.len() implies views[i] == (
        #[trigger] events@[i])@ by {}
    }
}

/// What a change of state runs first: a preparation on the way from null to ready, its
/// completion on the way from ready to paused, a pause on the way from playing to
/// paused, the undoing of the preparation on the way from ready to null, and nothing on
/// any other. The parent class changes its state next, where that succeeded.
pub proof fn law_first_steps_of_a_change<C>(
    src: &mut TcpClientSrc<C>,
    transition: Transition,
    event: ChangeEvent,
    action: ChangeAction,
)
    requires
        call_ensures(TcpClientSrc::<C>::change_state, (src, transition, event), action),
    ensures
        action == ChangeAction::Run(Operation::Prepare) <==> event is Begin
            && transition is NullToReady,
        action == ChangeAction::Run(Operation::CompletePreparation) <==> event is Begin
            && transition is ReadyToPaused,
        action == ChangeAction::Run(Operation::Pause) <==> event is Begin
            && transition is PlayingToPaused,
        action == ChangeAction::Run(Operation::Unprepare) <==> event is Begin
            && transition is ReadyToNull,
        action != ChangeAction::Run(Operation::Start),
        action is ChangeParent <==> {
            ||| event matches ChangeEvent::Operated(Ok(_))
            ||| event is Begin && (transition is PausedToPlaying || transition is PausedToReady
                || transition is Other)
        },
{
}

/// What follows once the parent class changed its state: the source is started just on
/// the way from paused to playing, and on every other way the change is at its end. A
/// change that succeeds does so as the parent class did, but for that from ready to
/// paused, which always just succeeds. A change fails just where a step failed, and with
/// the message of the operation where that gave one.
pub proof fn law_last_steps_of_a_change<C>(
    src: &mut TcpClientSrc<C>,
    transition: Transition,
    event: ChangeEvent,
    action: ChangeAction,
)
    requires
        call_ensures(TcpClientSrc::<C>::change_state, (src, transition, event), action),
    ensures
        action is Start <==> transition is PausedToPlaying && (
        event matches ChangeEvent::ParentChanged(Ok(_))),
        action matches ChangeAction::Start(success) ==> event == ChangeEvent::ParentChanged(
            Ok(success),
        ),
        action is Finish <==> {
            ||| !(transition is PausedToPlaying) && (event matches ChangeEvent::ParentChanged(
                Ok(_),
            ))
            ||| event matches ChangeEvent::Started(_, Ok(_))
        },
        action matches ChangeAction::Finish(success) ==> match event {
            ChangeEvent::ParentChanged(Ok(_)) if transition is ReadyToPaused => {
                success is Success
            },
            ChangeEvent::ParentChanged(Ok(parent)) => success == parent,
            ChangeEvent::Started(parent, _) => success == parent,
            _ => false,
        },
        action is Fail <==> {
            ||| event matches ChangeEvent::Operated(Err(_))
            ||| event matches ChangeEvent::ParentChanged(Err(_))
            ||| event matches ChangeEvent::Started(_, Err(_))
        },
        action matches ChangeAction::Fail(message) ==> match event {
            ChangeEvent::Operated(Err(given)) => message == given,
            _ => message is None,
        },
{
}

/// A change of state touches the source in one place only: where the parent class went
/// from paused to ready, the next buffer opens a stream.
pub proof fn law_source_after_a_change<C>(
    src: &mut TcpClientSrc<C>,
    transition: Transition,
    event: ChangeEvent,
    action: ChangeAction,
)
    requires
        call_ensures(TcpClientSrc::<C>::change_state, (src, transition, event), action),
    ensures
        transition is PausedToReady && (event matches ChangeEvent::ParentChanged(Ok(_)))
            ==> final(src)@ == (TcpClientSrcView {
            pad_handler: PadHandlerView { need_initial_events: true, ..old(src)@.pad_handler },
            ..old(src)@
        }),
        !(transition is PausedToReady && (event matches ChangeEvent::ParentChanged(Ok(_))))
            ==> final(src)@ == old(src)@,
{
}

} // verus!
