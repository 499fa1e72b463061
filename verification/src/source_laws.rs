//! What holds of a TCP client source over several calls.

use std::sync::Arc;

use vstd::prelude::*;

use crate::message::{message_view, ErrorMessage, ResourceError};
use crate::pad_handler::{
    caps_answer, closing_events, opening_events, push_action, CapsAnswer, FlowError, PadEventView,
    PadHandlerView, StateChangeSuccess,
};
use crate::settings::SettingsView;
use crate::tcpclientsrc::{
    change_action, operation_before, pause_action, socket_action, start_action, unprepare_action,
    ChangeAction, ChangeEvent, CompletionActionView, CompletionEvent, IpAddress, Operation,
    PauseAction, PauseEvent, PrepareActionView, PrepareEvent, PushEvent, PushStepView, SocketActionView,
    SocketEvent, StartAction, StartEvent, TcpClientSrcView, Transition, UnprepareAction,
    UnprepareEvent,
};

verus! {

/// How the steps of the preparation of a socket end.
pub struct SocketOutcomes {
    pub parse: Result<IpAddress, String>,
    pub connect: Result<(), (String, String)>,
    pub pool: Result<(), ()>,
    pub prepare: Result<(), String>,
}

/// The event that reports how `action` ended, if it is a step.
pub open spec fn socket_report(
    outcomes: SocketOutcomes,
    action: SocketActionView,
) -> Option<SocketEvent> {
    match action {
        SocketActionView::ParseAddress(_) => Some(SocketEvent::AddressParsed(outcomes.parse)),
        SocketActionView::Connect { .. } => Some(SocketEvent::Connected(outcomes.connect)),
        SocketActionView::ConfigurePool { .. } => Some(SocketEvent::PoolConfigured(outcomes.pool)),
        SocketActionView::PrepareSocket => Some(SocketEvent::SocketPrepared(outcomes.prepare)),
        SocketActionView::Done | SocketActionView::Fail(_) => None,
    }
}

/// The action that is due, and the source, after `steps` steps of the preparation of
/// a socket.
pub open spec fn socket_run<C>(
    v: TcpClientSrcView<C>,
    settings: SettingsView<C>,
    outcomes: SocketOutcomes,
    steps: nat,
) -> (SocketActionView, TcpClientSrcView<C>)
    decreases steps,
{
    if steps == 0 {
        (socket_action(settings, SocketEvent::Begin), v.after_socket(SocketEvent::Begin))
    } else {
        let (action, w) = socket_run(v, settings, outcomes, (steps - 1) as nat);
        match socket_report(outcomes, action) {
            Some(event) => (socket_action(settings, event), w.after_socket(event)),
            None => (action, w),
        }
    }
}

/// The preparation of a socket ends after at most four steps. It succeeds just where
/// there is an address and every step succeeds, and then there is a socket. Otherwise
/// it fails with the error of the first step that failed, and the source is as it was.
pub proof fn law_socket_preparation<C>(
    v: TcpClientSrcView<C>,
    settings: SettingsView<C>,
    outcomes: SocketOutcomes,
)
    requires
        v.wf(),
    ensures
        ({
            let (action, w) = socket_run(v, settings, outcomes, 4);
            &&& action is Done || action is Fail
            &&& action is Done <==> settings.address is Some && outcomes.parse is Ok
                && outcomes.connect is Ok && outcomes.pool is Ok && outcomes.prepare is Ok
            &&& action is Done ==> w == (TcpClientSrcView {
                socket: true,
                socket_stream: true,
                ..v
            })
            &&& action is Fail ==> w == v && action == if settings.address is None {
                socket_action(settings, SocketEvent::Begin)
            } else if outcomes.parse is Err {
                socket_action(settings, SocketEvent::AddressParsed(outcomes.parse))
            } else if outcomes.connect is Err {
                socket_action(settings, SocketEvent::Connected(outcomes.connect))
            } else if outcomes.pool is Err {
                socket_action(settings, SocketEvent::PoolConfigured(outcomes.pool))
            } else {
                socket_action(settings, SocketEvent::SocketPrepared(outcomes.prepare))
            }
        }),
{
    reveal_with_fuel(socket_run, 5);
}

/// Where the address of the settings can be read, connecting is tried once, right after
/// reading it, and just to what was read and to the port of the settings. Once that
/// succeeded the pool is configured for the buffer size of the settings.
pub proof fn law_connects_to_the_address<C>(
    v: TcpClientSrcView<C>,
    settings: SettingsView<C>,
    outcomes: SocketOutcomes,
    text: Seq<char>,
    address: IpAddress,
)
    requires
        settings.address == Some(text),
        outcomes.parse == Ok::<_, String>(address),
    ensures
        socket_run(v, settings, outcomes, 0).0 == SocketActionView::ParseAddress(text),
        socket_run(v, settings, outcomes, 1).0 == (SocketActionView::Connect {
            address,
            port: (settings.port as nat % 0x1_0000) as u16,
        }),
        outcomes.connect is Ok ==> socket_run(v, settings, outcomes, 2).0 == (
        SocketActionView::ConfigurePool { chunk_size: settings.chunk_size }),
        forall|steps: nat|
            (#[trigger] socket_run(v, settings, outcomes, steps)).0 is Connect <==> steps == 1,
{
    reveal_with_fuel(socket_run, 5);
    assert forall|steps: nat|
        (#[trigger] socket_run(v, settings, outcomes, steps)).0 is Connect <==> steps == 1 by {
        if steps >= 4 {
            lemma_socket_run_ends(v, settings, outcomes, steps);
        } else {
            assert(steps == 0 || steps == 1 || steps == 2 || steps == 3);
        }
    }
}

/// From the fourth step on nothing is left to do.
proof fn lemma_socket_run_ends<C>(
    v: TcpClientSrcView<C>,
    settings: SettingsView<C>,
    outcomes: SocketOutcomes,
    steps: nat,
)
    requires
        steps >= 4,
    ensures
        socket_run(v, settings, outcomes, steps).0 is Done || socket_run(
            v,
            settings,
            outcomes,
            steps,
        ).0 is Fail,
    decreases steps,
{
    if steps == 4 {
        reveal_with_fuel(socket_run, 5);
    } else {
        lemma_socket_run_ends(v, settings, outcomes, (steps - 1) as nat);
    }
}

/// A source without an address fails right away, and is told so.
pub proof fn law_no_address<C>(
    v: TcpClientSrcView<C>,
    settings: SettingsView<C>,
    outcomes: SocketOutcomes,
    steps: nat,
)
    requires
        settings.address is None,
    ensures
        socket_run(v, settings, outcomes, steps) == (
            SocketActionView::Fail(
                message_view(ResourceError::Settings, "No address set"@, ""@),
            ),
            v,
        ),
    decreases steps,
{
    if steps > 0 {
        law_no_address(v, settings, outcomes, (steps - 1) as nat);
    }
}

/// How the steps of the preparation of a source end.
pub struct PrepareOutcomes {
    pub context: Result<(), String>,
}

/// The event that reports how `action` ended, if it is a step.
pub open spec fn prepare_report(
    outcomes: PrepareOutcomes,
    action: PrepareActionView,
) -> Option<PrepareEvent> {
    match action {
        PrepareActionView::AcquireContext { .. } => Some(
            PrepareEvent::ContextAcquired(outcomes.context),
        ),
        PrepareActionView::SpawnPreparation => Some(PrepareEvent::PreparationSpawned),
        PrepareActionView::Done | PrepareActionView::Fail(_) => None,
    }
}

/// The action that is due, and the source, after `steps` steps of its preparation.
pub open spec fn prepare_run<C>(
    v: TcpClientSrcView<C>,
    outcomes: PrepareOutcomes,
    steps: nat,
) -> (PrepareActionView, TcpClientSrcView<C>)
    decreases steps,
{
    if steps == 0 {
        (v.prepare_action(PrepareEvent::Begin), v.after_prepare(PrepareEvent::Begin))
    } else {
        let (action, w) = prepare_run(v, outcomes, (steps - 1) as nat);
        match prepare_report(outcomes, action) {
            Some(event) => (w.prepare_action(event), w.after_prepare(event)),
            None => (action, w),
        }
    }
}

/// The preparation of a source ends after at most two steps. It succeeds just where
/// its context can be had, and then the preparation of the socket is under way.
/// Otherwise the source is as it was.
pub proof fn law_preparation<C>(v: TcpClientSrcView<C>, outcomes: PrepareOutcomes)
    ensures
        ({
            let (action, w) = prepare_run(v, outcomes, 2);
            match outcomes.context {
                Ok(_) => action is Done && w == (TcpClientSrcView { preparation: true, ..v }),
                Err(error) => w == v && action == PrepareActionView::Fail(
                    message_view(ResourceError::OpenRead, "Failed to acquire Context: "@, error@),
                ),
            }
        }),
{
    reveal_with_fuel(prepare_run, 3);
}

/// How the steps of the completion of a preparation end.
pub struct CompletionOutcomes {
    pub joined: Result<(), ErrorMessage>,
    pub pad: Result<(), String>,
}

/// The event that reports how `action` ended, if it is a step.
pub open spec fn completion_report(
    outcomes: CompletionOutcomes,
    action: CompletionActionView,
) -> Option<CompletionEvent> {
    match action {
        CompletionActionView::Join => Some(CompletionEvent::Joined(outcomes.joined)),
        CompletionActionView::PreparePad => Some(CompletionEvent::PadPrepared(outcomes.pad)),
        CompletionActionView::Done | CompletionActionView::Fail(_) => None,
    }
}

/// The action that is due, and the source, after `steps` steps of the completion of its
/// preparation.
pub open spec fn completion_run<C>(
    v: TcpClientSrcView<C>,
    outcomes: CompletionOutcomes,
    steps: nat,
) -> (CompletionActionView, TcpClientSrcView<C>)
    decreases steps,
{
    if steps == 0 {
        (v.completion_action(CompletionEvent::Begin), v.after_completion(CompletionEvent::Begin))
    } else {
        let (action, w) = completion_run(v, outcomes, (steps - 1) as nat);
        match completion_report(outcomes, action) {
            Some(event) => (w.completion_action(event), w.after_completion(event)),
            None => (action, w),
        }
    }
}

/// The completion of a preparation ends after at most two steps, and uses up the
/// preparation either way. It fails with the very error of the socket where that could
/// not be prepared, and otherwise succeeds just where the pad can be prepared.
pub proof fn law_completion<C>(v: TcpClientSrcView<C>, outcomes: CompletionOutcomes)
    requires
        v.preparation,
    ensures
        ({
            let (action, w) = completion_run(v, outcomes, 2);
            &&& w == (TcpClientSrcView { preparation: false, ..v })
            &&& match (outcomes.joined, outcomes.pad) {
                (Err(message), _) => action == CompletionActionView::Fail(message@),
                (Ok(_), Err(error)) => action == CompletionActionView::Fail(
                    message_view(ResourceError::OpenRead, "Error preparing src_pads: "@, error@),
                ),
                (Ok(_), Ok(_)) => action is Done,
            }
        }),
{
    reveal_with_fuel(completion_run, 3);
}

/// The event that reports that `action` was done, if it is a step.
pub open spec fn unprepare_report(action: UnprepareAction) -> Option<UnprepareEvent> {
    match action {
        UnprepareAction::StopTask => Some(UnprepareEvent::TaskStopped),
        UnprepareAction::UnprepareSocket => Some(UnprepareEvent::SocketUnprepared),
        UnprepareAction::UnpreparePad => Some(UnprepareEvent::PadUnprepared),
        UnprepareAction::Done => None,
    }
}

/// The action that is due, and the source, after `steps` steps of undoing its
/// preparation.
pub open spec fn unprepare_run<C>(v: TcpClientSrcView<C>, steps: nat) -> (
    UnprepareAction,
    TcpClientSrcView<C>,
)
    decreases steps,
{
    if steps == 0 {
        (unprepare_action(UnprepareEvent::Begin), v.after_unprepare(UnprepareEvent::Begin))
    } else {
        let (action, w) = unprepare_run(v, (steps - 1) as nat);
        match unprepare_report(action) {
            Some(event) => (unprepare_action(event), w.after_unprepare(event)),
            None => (action, w),
        }
    }
}

/// Undoing a preparation ends after three steps. Until the task has stopped the socket
/// and the caps are there; the socket is gone before its preparation is undone, and the
/// caps are forgotten last.
pub proof fn law_unprepare<C>(v: TcpClientSrcView<C>)
    requires
        v.wf(),
        v.socket,
    ensures
        unprepare_run(v, 0) == (UnprepareAction::StopTask, v),
        unprepare_run(v, 1) == (
            UnprepareAction::UnprepareSocket,
            TcpClientSrcView { socket: false, ..v },
        ),
        unprepare_run(v, 2) == (
            UnprepareAction::UnpreparePad,
            TcpClientSrcView { socket: false, ..v },
        ),
        unprepare_run(v, 3) == (UnprepareAction::Done, unprepared(v)),
        unprepared(v) == (TcpClientSrcView {
            socket: false,
            pad_handler: PadHandlerView { configured_caps: None, ..v.pad_handler },
            ..v
        }),
{
    reveal_with_fuel(unprepare_run, 4);
}

/// The event that reports that `action` was done, if it is a step.
pub open spec fn start_report(action: StartAction) -> Option<StartEvent> {
    match action {
        StartAction::StartSocket => Some(StartEvent::SocketStarted),
        StartAction::StartTask => Some(StartEvent::TaskStarted),
        StartAction::Done => None,
    }
}

/// The action that is due after `steps` steps of starting a source.
pub open spec fn start_run<C>(v: TcpClientSrcView<C>, steps: nat) -> StartAction
    decreases steps,
{
    if steps == 0 {
        start_action(v.socket, StartEvent::Begin)
    } else {
        let action = start_run(v, (steps - 1) as nat);
        match start_report(action) {
            Some(event) => start_action(v.socket, event),
            None => action,
        }
    }
}

/// A start ends after at most two steps: first the socket is started, just where there
/// is one, and then the task.
pub proof fn law_start<C>(v: TcpClientSrcView<C>, steps: nat)
    ensures
        start_run(v, steps) == if v.socket && steps == 0 {
            StartAction::StartSocket
        } else if !v.socket && steps == 0 || v.socket && steps == 1 {
            StartAction::StartTask
        } else {
            StartAction::Done
        },
    decreases steps,
{
    if steps > 0 {
        law_start(v, (steps - 1) as nat);
    }
}

/// The event that reports that `action` was done, if it is a step.
pub open spec fn pause_report(action: PauseAction) -> Option<PauseEvent> {
    match action {
        PauseAction::PauseTask => Some(PauseEvent::TaskPausing),
        PauseAction::PauseSocket => Some(PauseEvent::SocketPaused),
        PauseAction::AwaitTask => Some(PauseEvent::TaskPaused),
        PauseAction::Done => None,
    }
}

/// The action that is due after `steps` steps of pausing a source.
pub open spec fn pause_run(steps: nat) -> PauseAction
    decreases steps,
{
    if steps == 0 {
        pause_action(PauseEvent::Begin)
    } else {
        let action = pause_run((steps - 1) as nat);
        match pause_report(action) {
            Some(event) => pause_action(event),
            None => action,
        }
    }
}

/// A pause ends after three steps: the task is told to pause, then the socket is paused,
/// and then the task is waited for.
pub proof fn law_pause(steps: nat)
    ensures
        pause_run(steps) == if steps == 0 {
            PauseAction::PauseTask
        } else if steps == 1 {
            PauseAction::PauseSocket
        } else if steps == 2 {
            PauseAction::AwaitTask
        } else {
            PauseAction::Done
        },
    decreases steps,
{
    if steps > 0 {
        law_pause((steps - 1) as nat);
    }
}

/// A buffer that was read, and how the steps of pushing it end.
pub struct PushOutcomes<B> {
    pub buffer: B,
    pub size: usize,
    /// Whether each of the events before it is taken.
    pub taken: Vec<bool>,
    pub push: Result<(), (FlowError, String)>,
}

/// The event that reports how `step` ended, if it is not the end.
pub open spec fn push_report<B, C>(
    outcomes: PushOutcomes<B>,
    step: PushStepView<B, C>,
) -> Option<PushEvent<B>> {
    match step {
        PushStepView::SendEvents(_) => Some(
            PushEvent::EventsPushed { buffer: outcomes.buffer, taken: outcomes.taken },
        ),
        PushStepView::SendBuffer(_) => Some(PushEvent::BufferPushed(outcomes.push)),
        PushStepView::Finish(_) => None,
    }
}

/// The step that is due, and the source, after `steps` steps of pushing a buffer, where
/// `stream_id` names the stream that it opens.
pub open spec fn push_run<B, C>(
    v: TcpClientSrcView<C>,
    stream_id: Seq<char>,
    outcomes: PushOutcomes<B>,
    steps: nat,
) -> (PushStepView<B, C>, TcpClientSrcView<C>)
    decreases steps,
{
    if steps == 0 {
        let event = PushEvent::<B>::Begin { size: outcomes.size };
        (v.push_step(stream_id, event), v.after_push_event(event))
    } else {
        let (step, w) = push_run(v, stream_id, outcomes, (steps - 1) as nat);
        match push_report(outcomes, step) {
            Some(event) => (w.push_step(stream_id, event), w.after_push_event(event)),
            None => (step, w),
        }
    }
}

/// What goes out of the pad.
pub enum PadCall<B, C> {
    Event(PadEventView<C>),
    Buffer(B),
}

/// The events, as they go out of the pad.
pub open spec fn event_calls<B, C>(events: Seq<PadEventView<C>>) -> Seq<PadCall<B, C>> {
    events.map_values(|event: PadEventView<C>| PadCall::<B, C>::Event(event))
}

/// What goes out of the pad in one step.
pub open spec fn step_calls<B, C>(step: PushStepView<B, C>) -> Seq<PadCall<B, C>> {
    match step {
        PushStepView::SendEvents(events) => event_calls(events),
        PushStepView::SendBuffer(buffer) => seq![PadCall::Buffer(buffer)],
        PushStepView::Finish(_) => Seq::empty(),
    }
}

/// What went out of the pad in the first `steps` steps of pushing a buffer, in order.
pub open spec fn push_calls<B, C>(
    v: TcpClientSrcView<C>,
    stream_id: Seq<char>,
    outcomes: PushOutcomes<B>,
    steps: nat,
) -> Seq<PadCall<B, C>>
    decreases steps,
{
    if steps == 0 {
        Seq::empty()
    } else {
        let before = (steps - 1) as nat;
        push_calls(v, stream_id, outcomes, before) + step_calls(
            push_run(v, stream_id, outcomes, before).0,
        )
    }
}

/// Pushing a buffer ends after two steps. In the first the events go out that open a
/// stream, where one is to be opened, with the caps of the settings, and the end of the
/// stream, where the buffer is empty. In the second the buffer goes out, just once, and
/// whether or not the events were taken. Nothing else goes out, and what is left to do
/// then is up to how the push of the buffer ended.
pub proof fn law_buffer_goes_out_once<B, C>(
    v: TcpClientSrcView<C>,
    stream_id: Seq<char>,
    outcomes: PushOutcomes<B>,
    steps: nat,
)
    requires
        steps >= 2,
    ensures
        push_calls(v, stream_id, outcomes, steps) == event_calls::<B, C>(
            (if v.pad_handler.need_initial_events {
                opening_events(stream_id, v.settings.caps)
            } else {
                Seq::empty()
            }) + closing_events(outcomes.size),
        ).push(PadCall::Buffer(outcomes.buffer)),
        push_run(v, stream_id, outcomes, steps) == (
            PushStepView::<B, C>::Finish(
                match outcomes.push {
                    Ok(_) => push_action(None, Seq::empty()),
                    Err((error, reason)) => push_action(Some(error), reason@),
                },
            ),
            TcpClientSrcView {
                pad_handler: v.pad_handler.after_events(v.settings.caps),
                ..v
            },
        ),
    decreases steps,
{
    if steps == 2 {
        reveal_with_fuel(push_run, 3);
        reveal_with_fuel(push_calls, 3);
        let events = v.pad_handler.events_before(stream_id, v.settings.caps, outcomes.size);
        assert(events =~= (if v.pad_handler.need_initial_events {
            opening_events(stream_id, v.settings.caps)
        } else {
            Seq::empty()
        }) + closing_events(outcomes.size));
        assert(push_calls(v, stream_id, outcomes, 2) =~= event_calls::<B, C>(events).push(
            PadCall::Buffer(outcomes.buffer),
        ));
    } else {
        law_buffer_goes_out_once(v, stream_id, outcomes, (steps - 1) as nat);
        assert(step_calls(push_run(v, stream_id, outcomes, (steps - 1) as nat).0) =~= Seq::empty());
    }
}

/// How the steps of a change of state end.
pub struct ChangeOutcomes<C> {
    pub operation: Result<(), Option<ErrorMessage>>,
    /// The source as the operation left it, whether or not that succeeded.
    pub operated: TcpClientSrcView<C>,
    pub parent: Result<StateChangeSuccess, ()>,
    pub start: Result<(), ()>,
}

/// The event that reports how `action` ended, if it is a step.
pub open spec fn change_report<C>(
    outcomes: ChangeOutcomes<C>,
    action: ChangeAction,
) -> Option<ChangeEvent> {
    match action {
        ChangeAction::Run(_) => Some(ChangeEvent::Operated(outcomes.operation)),
        ChangeAction::ChangeParent => Some(ChangeEvent::ParentChanged(outcomes.parent)),
        ChangeAction::Start(success) => Some(ChangeEvent::Started(success, outcomes.start)),
        ChangeAction::Finish(_) | ChangeAction::Fail(_) => None,
    }
}

/// The action that is due, and the source, after `steps` steps of a change of state.
pub open spec fn change_run<C>(
    v: TcpClientSrcView<C>,
    transition: Transition,
    outcomes: ChangeOutcomes<C>,
    steps: nat,
) -> (ChangeAction, TcpClientSrcView<C>)
    decreases steps,
{
    if steps == 0 {
        (
            change_action(transition, ChangeEvent::Begin),
            v.after_change(transition, ChangeEvent::Begin),
        )
    } else {
        let (action, w) = change_run(v, transition, outcomes, (steps - 1) as nat);
        let left = if action is Run {
            outcomes.operated
        } else {
            w
        };
        match change_report(outcomes, action) {
            Some(event) => (
                change_action(transition, event),
                left.after_change(transition, event),
            ),
            None => (action, left),
        }
    }
}

/// A change of state ends after at most three steps. It fails with the first step that
/// failed, and with a message only where the operation gave one. Otherwise it succeeds
/// as the parent class did, but for the change from ready to paused, which is never
/// asynchronous.
///
/// What the operation did to the source stays, also where the parent class fails after
/// it. A change from paused to ready that succeeds has the next buffer open a stream;
/// nothing else is changed.
pub proof fn law_change_of_state<C>(
    v: TcpClientSrcView<C>,
    transition: Transition,
    outcomes: ChangeOutcomes<C>,
)
    ensures
        ({
            let (action, w) = change_run(v, transition, outcomes, 3);
            let operates = operation_before(transition) is Some;
            let starts = transition == Transition::PausedToPlaying;
            let left = if operates {
                outcomes.operated
            } else {
                v
            };
            if operates && outcomes.operation is Err {
                action == ChangeAction::Fail(outcomes.operation->Err_0) && w == left
            } else if outcomes.parent is Err {
                action == ChangeAction::Fail(None) && w == left
            } else if starts && outcomes.start is Err {
                action == ChangeAction::Fail(None) && w == left
            } else {
                &&& action == ChangeAction::Finish(
                    if transition == Transition::ReadyToPaused {
                        StateChangeSuccess::Success
                    } else {
                        outcomes.parent->Ok_0
                    },
                )
                &&& w == if transition == Transition::PausedToReady {
                    TcpClientSrcView {
                        pad_handler: PadHandlerView {
                            need_initial_events: true,
                            ..left.pad_handler
                        },
                        ..left
                    }
                } else {
                    left
                }
            }
        }),
{
    reveal_with_fuel(change_run, 4);
}

/// From the third step on nothing is left to do.
proof fn lemma_change_run_ends<C>(
    v: TcpClientSrcView<C>,
    transition: Transition,
    outcomes: ChangeOutcomes<C>,
    steps: nat,
)
    requires
        steps >= 3,
    ensures
        change_run(v, transition, outcomes, steps) == change_run(v, transition, outcomes, 3),
        ({
            let action = change_run(v, transition, outcomes, steps).0;
            action is Finish || action is Fail
        }),
    decreases steps,
{
    reveal_with_fuel(change_run, 4);
    if steps > 3 {
        lemma_change_run_ends(v, transition, outcomes, (steps - 1) as nat);
    }
}

/// A change of state starts the source just on the way from paused to playing, once the
/// parent class has succeeded, and then exactly once. No other change ever starts it,
/// and one from playing to paused pauses it, before anything else is done.
pub proof fn law_only_playing_starts_the_source<C>(
    v: TcpClientSrcView<C>,
    transition: Transition,
    outcomes: ChangeOutcomes<C>,
    steps: nat,
)
    ensures
        ({
            let action = change_run(v, transition, outcomes, steps).0;
            &&& action is Start <==> transition is PausedToPlaying && outcomes.parent is Ok
                && steps == 1
            &&& action matches ChangeAction::Run(operation) ==> {
                &&& steps == 0
                &&& operation != Operation::Start
                &&& operation is Pause <==> transition is PlayingToPaused
            }
            &&& transition is PlayingToPaused && steps == 0 ==> action is Run
        }),
{
    reveal_with_fuel(change_run, 4);
    if steps >= 3 {
        lemma_change_run_ends(v, transition, outcomes, steps);
    } else {
        assert(steps == 0 || steps == 1 || steps == 2);
    }
}

/// The parent class changes its state at most once in a change of state: right away on
/// the ways from paused to playing and to ready and where the state stays, and otherwise
/// right after the operation, just where that succeeded.
pub proof fn law_parent_changes_once<C>(
    v: TcpClientSrcView<C>,
    transition: Transition,
    outcomes: ChangeOutcomes<C>,
    steps: nat,
)
    ensures
        change_run(v, transition, outcomes, steps).0 is ChangeParent <==> if transition
            is PausedToPlaying || transition is PausedToReady || transition is Other {
            steps == 0
        } else {
            steps == 1 && outcomes.operation is Ok
        },
{
    reveal_with_fuel(change_run, 4);
    if steps >= 3 {
        lemma_change_run_ends(v, transition, outcomes, steps);
    } else {
        assert(steps == 0 || steps == 1 || steps == 2);
    }
}

/// A preparation that succeeded is still under way after the parent class failed to
/// become ready.
pub proof fn law_failed_parent_keeps_preparation<C>(
    v: TcpClientSrcView<C>,
    context: PrepareOutcomes,
    outcomes: ChangeOutcomes<C>,
)
    requires
        context.context is Ok,
        outcomes.operation is Ok,
        outcomes.operated == prepare_run(v, context, 2).1,
        outcomes.parent is Err,
    ensures
        change_run(v, Transition::NullToReady, outcomes, 3) == (
            ChangeAction::Fail(None),
            TcpClientSrcView { preparation: true, ..v },
        ),
{
    law_preparation(v, context);
    law_change_of_state(v, Transition::NullToReady, outcomes);
}

/// The source after its preparation succeeded, that of the socket included.
pub open spec fn prepared<C>(v: TcpClientSrcView<C>) -> TcpClientSrcView<C> {
    v.after_prepare(PrepareEvent::PreparationSpawned).after_socket(
        SocketEvent::SocketPrepared(Ok(())),
    )
}

/// The source after it waited for its preparation.
pub open spec fn completed<C>(v: TcpClientSrcView<C>) -> TcpClientSrcView<C> {
    v.after_completion(CompletionEvent::Begin)
}

/// The source after it went from paused back to ready.
pub open spec fn readied<C>(v: TcpClientSrcView<C>) -> TcpClientSrcView<C> {
    v.after_change(
        Transition::PausedToReady,
        ChangeEvent::ParentChanged(Ok(StateChangeSuccess::Success)),
    )
}

/// The source after its preparation was undone.
pub open spec fn unprepared<C>(v: TcpClientSrcView<C>) -> TcpClientSrcView<C> {
    v.after_unprepare(UnprepareEvent::Begin).after_unprepare(
        UnprepareEvent::TaskStopped,
    ).after_unprepare(UnprepareEvent::SocketUnprepared).after_unprepare(
        UnprepareEvent::PadUnprepared,
    )
}

/// A source that goes up to paused, and down to null again, finds what each operation
/// needs: a preparation to wait for, a socket to pause, and a socket to take. Having
/// come down it needs a new preparation, its next buffer opens a stream, it has
/// forgotten its caps, and its settings are as they were.
pub proof fn law_life_cycle<C>(v: TcpClientSrcView<C>)
    requires
        v.wf(),
    ensures
        prepared(v).preparation,
        completed(prepared(v)).socket && completed(prepared(v)).socket_stream,
        !completed(prepared(v)).preparation,
        readied(completed(prepared(v))).after_unprepare(UnprepareEvent::Begin).socket,
        unprepared(readied(completed(prepared(v)))) == (TcpClientSrcView {
            settings: v.settings,
            pad_handler: PadHandlerView::fresh(),
            socket: false,
            socket_stream: true,
            preparation: false,
        }),
{
}

/// A buffer that is pushed: the name that is drawn for a stream it may open, the caps
/// of the settings at that time, and its size.
pub struct PushedBuffer<C> {
    pub stream_id: Seq<char>,
    pub caps: Option<Arc<C>>,
    pub size: usize,
}

/// The pad after the buffers were pushed.
pub open spec fn pad_after<C>(
    pad: PadHandlerView<C>,
    pushed: Seq<PushedBuffer<C>>,
) -> PadHandlerView<C>
    decreases pushed.len(),
{
    if pushed.len() == 0 {
        pad
    } else {
        pad_after(pad, pushed.drop_last()).after_events(pushed.last().caps)
    }
}

/// All events that went out with the buffers, in order.
pub open spec fn events_with<C>(
    pad: PadHandlerView<C>,
    pushed: Seq<PushedBuffer<C>>,
) -> Seq<PadEventView<C>>
    decreases pushed.len(),
{
    if pushed.len() == 0 {
        Seq::empty()
    } else {
        let last = pushed.last();
        events_with(pad, pushed.drop_last()) + pad_after(pad, pushed.drop_last()).events_before(
            last.stream_id,
            last.caps,
            last.size,
        )
    }
}

/// The end-of-stream events of the empty ones among the buffers.
pub open spec fn ends_of<C>(pushed: Seq<PushedBuffer<C>>) -> Seq<PadEventView<C>>
    decreases pushed.len(),
{
    if pushed.len() == 0 {
        Seq::empty()
    } else {
        ends_of(pushed.drop_last()) + closing_events(pushed.last().size)
    }
}

/// However many buffers are pushed, the events that open a stream go out once, before
/// the first of them, and name the stream and the caps of that time. All that follows
/// is an end of stream for each empty buffer.
pub proof fn law_stream_opens_once<C>(pad: PadHandlerView<C>, pushed: Seq<PushedBuffer<C>>)
    requires
        pad.need_initial_events,
        pushed.len() > 0,
    ensures
        events_with(pad, pushed) == opening_events(pushed.first().stream_id, pushed.first().caps)
            + ends_of(pushed),
        !pad_after(pad, pushed).need_initial_events,
        pad_after(pad, pushed).configured_caps == if pushed.first().caps is Some {
            pushed.first().caps
        } else {
            pad.configured_caps
        },
    decreases pushed.len(),
{
    let before = pushed.drop_last();
    if before.len() == 0 {
        assert(events_with(pad, before) =~= Seq::empty());
        assert(ends_of(before) =~= Seq::empty());
        assert(pushed.first() == pushed.last());
        assert(events_with(pad, pushed) =~= opening_events(
            pushed.first().stream_id,
            pushed.first().caps,
        ) + ends_of(pushed));
    } else {
        law_stream_opens_once(pad, before);
        assert(before.first() == pushed.first());
        assert(events_with(pad, pushed) =~= opening_events(
            pushed.first().stream_id,
            pushed.first().caps,
        ) + ends_of(pushed));
    }
}

/// The end of the stream is announced before a buffer just where it is empty, and
/// nothing follows it.
pub proof fn law_end_of_stream_for_empty_buffer<C>(
    pad: PadHandlerView<C>,
    stream_id: Seq<char>,
    caps: Option<Arc<C>>,
    size: usize,
)
    ensures
        pad.events_before(stream_id, caps, size).contains(PadEventView::<C>::Eos) <==> size == 0,
        size == 0 ==> pad.events_before(stream_id, caps, size).last() == PadEventView::<C>::Eos,
{
    let events = pad.events_before(stream_id, caps, size);
    if size == 0 {
        assert(events[events.len() - 1] == PadEventView::<C>::Eos);
    }
}

/// Once a stream was opened with caps, a query for caps is answered with those, narrowed
/// by its filter. Once the preparation was undone, it is answered with the filter alone.
pub proof fn law_announced_caps_are_answered<C>(
    v: TcpClientSrcView<C>,
    caps: Arc<C>,
    filter: Arc<C>,
)
    requires
        v.pad_handler.need_initial_events,
    ensures
        ({
            let opened = v.pad_handler.after_events(Some(caps)).configured_caps;
            &&& caps_answer(opened, None) == CapsAnswer::Only(caps)
            &&& caps_answer(opened, Some(filter)) == (CapsAnswer::Intersection {
                filter,
                caps,
            })
        }),
        ({
            let forgotten = unprepared(v).pad_handler.configured_caps;
            &&& caps_answer(forgotten, None) == CapsAnswer::<C>::Any
            &&& caps_answer(forgotten, Some(filter)) == CapsAnswer::Only(filter)
        }),
{
}

} // verus!
