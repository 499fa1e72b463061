//! What the source pad does: which events go out before a buffer, what follows
//! from the outcome of a push or a read, and how events and queries from further
//! down are answered.

use std::sync::Arc;

use vstd::prelude::*;

use crate::caps::{share, share_optional};
use crate::item::EventType;
use crate::message::{
    flow_failure, flow_failure_view, io_failure, io_failure_view, StreamFailure, StreamFailureView,
};
use crate::stream_id::{stream_id, stream_id_of};

verus! {

/// Why data did not flow.
#[derive(Debug, Clone, Copy, PartialEq, Eq, Structural)]
pub enum FlowError {
    NotLinked,
    Flushing,
    Eos,
    NotNegotiated,
    Error,
    NotSupported,
    CustomError,
    CustomError1,
    CustomError2,
}

/// An event that the pad sends out.
#[derive(Debug)]
pub enum PadEvent<C> {
    StreamStart { stream_id: String },
    Caps(Arc<C>),
    /// A segment in time format with its initial values.
    Segment,
    Eos,
}

/// A `PadEvent` by its characters and caps.
pub enum PadEventView<C> {
    StreamStart { stream_id: Seq<char> },
    Caps(Arc<C>),
    Segment,
    Eos,
}

impl<C> View for PadEvent<C> {
    type V = PadEventView<C>;

    open spec fn view(&self) -> PadEventView<C> {
        match self {
            PadEvent::StreamStart { stream_id } => PadEventView::StreamStart {
                stream_id: stream_id@,
            },
            PadEvent::Caps(caps) => PadEventView::Caps(*caps),
            PadEvent::Segment => PadEventView::Segment,
            PadEvent::Eos => PadEventView::Eos,
        }
    }
}

/// The events by their characters and caps.
pub open spec fn events_view<C>(events: Seq<PadEvent<C>>) -> Seq<PadEventView<C>> {
    events.map_values(|event: PadEvent<C>| event@)
}

/// The events that open a stream: its start, its caps if there are any, its segment.
pub open spec fn opening_events<C>(
    stream_id: Seq<char>,
    caps: Option<Arc<C>>,
) -> Seq<PadEventView<C>> {
    match caps {
        Some(caps) => seq![
            PadEventView::StreamStart { stream_id },
            PadEventView::Caps(caps),
            PadEventView::Segment,
        ],
        None => seq![PadEventView::StreamStart { stream_id }, PadEventView::Segment],
    }
}

/// The event that a buffer of `size` bytes brings along: an empty buffer is what is
/// read at the end of the stream.
pub open spec fn closing_events<C>(size: usize) -> Seq<PadEventView<C>> {
    if size == 0 {
        seq![PadEventView::Eos]
    } else {
        Seq::empty()
    }
}

/// What is left to do after a buffer was pushed.
#[derive(Debug)]
pub enum PushAction {
    /// Go on reading.
    Continue,
    /// Pause the task of the pad.
    PauseTask,
    /// Report the failure.
    PostError(StreamFailure),
}

/// A `PushAction` by its characters.
pub enum PushActionView {
    Continue,
    PauseTask,
    PostError(StreamFailureView),
}

impl View for PushAction {
    type V = PushActionView;

    open spec fn view(&self) -> PushActionView {
        match self {
            PushAction::Continue => PushActionView::Continue,
            PushAction::PauseTask => PushActionView::PauseTask,
            PushAction::PostError(failure) => PushActionView::PostError(failure@),
        }
    }
}

/// What is left to do after a push that ended with `error`, described by `reason`.
pub open spec fn push_action(error: Option<FlowError>, reason: Seq<char>) -> PushActionView {
    match error {
        None => PushActionView::Continue,
        Some(FlowError::Flushing) | Some(FlowError::Eos) => PushActionView::PauseTask,
        Some(_) => PushActionView::PostError(flow_failure_view(reason)),
    }
}

/// Returns what is left to do after a buffer was pushed. An error comes with its
/// description.
pub fn after_push(result: Result<(), (FlowError, String)>) -> (action: PushAction)
    ensures
        match result {
            Ok(()) => action@ == push_action(None, Seq::empty()),
            Err((error, reason)) => action@ == push_action(Some(error), reason@),
        },
{
    match result {
        Ok(()) => PushAction::Continue,
        Err((FlowError::Flushing, _)) => PushAction::PauseTask,
        Err((FlowError::Eos, _)) => PushAction::PauseTask,
        Err((_, reason)) => PushAction::PostError(flow_failure(reason.as_str())),
    }
}

/// Why nothing could be read from the socket. Each error comes with its description.
#[derive(Debug)]
pub enum SocketError {
    Flow(FlowError, String),
    Io(String),
}

/// What the task of the pad does with what it read.
#[derive(Debug)]
pub enum TaskAction<B> {
    /// Push the buffer.
    Push(B),
    /// Report the failure, and go on.
    PostError(StreamFailure),
    /// Go on.
    Continue,
    /// Pause the task.
    PauseTask,
}

/// `action` is what follows from reading `item`, which is absent once the socket
/// has stopped.
pub open spec fn task_action_for<B>(
    item: Option<Result<B, SocketError>>,
    action: TaskAction<B>,
) -> bool {
    match item {
        Some(Ok(buffer)) => action == TaskAction::Push(buffer),
        Some(Err(SocketError::Flow(FlowError::CustomError, _))) => action
            == TaskAction::<B>::Continue,
        Some(Err(SocketError::Flow(_, reason))) => action matches TaskAction::PostError(failure)
            && failure@ == flow_failure_view(reason@),
        Some(Err(SocketError::Io(error))) => action matches TaskAction::PostError(failure)
            && failure@ == io_failure_view(error@),
        None => action == TaskAction::<B>::PauseTask,
    }
}

/// Returns what the task of the pad does with what it read.
pub fn handle_item<B>(item: Option<Result<B, SocketError>>) -> (action: TaskAction<B>)
    ensures
        task_action_for(item, action),
{
    match item {
        Some(Ok(buffer)) => TaskAction::Push(buffer),
        Some(Err(SocketError::Flow(FlowError::CustomError, _))) => TaskAction::Continue,
        Some(Err(SocketError::Flow(_, reason))) => TaskAction::PostError(
            flow_failure(reason.as_str()),
        ),
        Some(Err(SocketError::Io(error))) => TaskAction::PostError(io_failure(error.as_str())),
        None => TaskAction::PauseTask,
    }
}

/// The states of an element.
#[derive(Debug, Clone, Copy, PartialEq, Eq, Structural)]
pub enum ElementState {
    VoidPending,
    Null,
    Ready,
    Paused,
    Playing,
}

/// How a change of state succeeded.
#[derive(Debug, Clone, Copy, PartialEq, Eq, Structural)]
pub enum StateChangeSuccess {
    Success,
    Async,
    NoPreroll,
}

/// What an event from further down asks for.
#[derive(Debug, Clone, Copy, PartialEq, Eq, Structural)]
pub enum EventAction {
    /// Pause the source.
    Pause,
    /// Start the source if the element plays or is about to play.
    StartIfPlaying,
    /// Nothing.
    Nothing,
    /// The event is not for this element.
    Unhandled,
}

impl EventAction {
    /// Returns whether the event counts as handled.
    pub fn handled(self) -> (handled: bool)
        ensures
            handled == (self != EventAction::Unhandled),
    {
        self != EventAction::Unhandled
    }
}

/// What an event of kind `kind` from further down asks for.
pub open spec fn event_action(kind: EventType) -> EventAction {
    match kind {
        EventType::FlushStart => EventAction::Pause,
        EventType::FlushStop => EventAction::StartIfPlaying,
        EventType::Reconfigure | EventType::Latency => EventAction::Nothing,
        EventType::Segment | EventType::Eos | EventType::Other => EventAction::Unhandled,
    }
}

/// Returns what an event of kind `kind` from further down asks for.
pub fn src_event(kind: EventType) -> (action: EventAction)
    ensures
        action == event_action(kind),
{
    match kind {
        EventType::FlushStart => EventAction::Pause,
        EventType::FlushStop => EventAction::StartIfPlaying,
        EventType::Reconfigure => EventAction::Nothing,
        EventType::Latency => EventAction::Nothing,
        _ => EventAction::Unhandled,
    }
}

/// Whether an element plays or is about to play, as asking for its state tells:
/// it reached its state and that is playing, or it is on its way to playing.
pub open spec fn plays(
    result: Result<StateChangeSuccess, ()>,
    state: ElementState,
    pending: ElementState,
) -> bool {
    ||| result == Ok::<_, ()>(StateChangeSuccess::Success) && state == ElementState::Playing
    ||| result == Ok::<_, ()>(StateChangeSuccess::Async) && pending == ElementState::Playing
}

/// Returns whether the end of a flush has to start the source.
pub fn starts_after_flush(
    result: Result<StateChangeSuccess, ()>,
    state: ElementState,
    pending: ElementState,
) -> (starts: bool)
    ensures
        starts == plays(result, state, pending),
{
    match result {
        Ok(StateChangeSuccess::Success) => state == ElementState::Playing,
        Ok(StateChangeSuccess::Async) => pending == ElementState::Playing,
        _ => false,
    }
}

/// A query from further down.
#[derive(Debug)]
pub enum Query<C> {
    Latency,
    Scheduling,
    /// For the caps that can be had, among those of the filter where there is one.
    Caps { filter: Option<Arc<C>> },
    Other,
}

/// The caps to answer with.
#[derive(Debug)]
pub enum CapsAnswer<C> {
    /// Those of both, in the order of the filter.
    Intersection { filter: Arc<C>, caps: Arc<C> },
    /// Just these.
    Only(Arc<C>),
    /// Any.
    Any,
}

/// The caps to answer with where the caps are fixed to `configured`, or not yet.
pub open spec fn caps_answer<C>(
    configured: Option<Arc<C>>,
    filter: Option<Arc<C>>,
) -> CapsAnswer<C> {
    match (configured, filter) {
        (Some(caps), Some(filter)) => CapsAnswer::Intersection { filter, caps },
        (Some(caps), None) => CapsAnswer::Only(caps),
        (None, Some(filter)) => CapsAnswer::Only(filter),
        (None, None) => CapsAnswer::Any,
    }
}

/// The answer to a query.
#[derive(Debug)]
pub enum QueryAnswer<C> {
    /// Whether the source is live, and its latencies in nanoseconds.
    Latency { live: bool, min: u64, max: u64 },
    /// Whether data can only be read in sequence, in which sizes and with which
    /// alignment, and whether the pad pushes it.
    Scheduling { sequential: bool, min_size: i32, max_size: i32, align: i32, push: bool },
    Caps(CapsAnswer<C>),
    /// The query is not for this element.
    Unhandled,
}

/// The answer to `query` of a pad whose caps are fixed to `configured`, or not yet.
pub open spec fn answer_to<C>(configured: Option<Arc<C>>, query: Query<C>) -> QueryAnswer<C> {
    match query {
        Query::Latency => QueryAnswer::Latency { live: false, min: 0, max: 0 },
        Query::Scheduling => QueryAnswer::Scheduling {
            sequential: true,
            min_size: 1,
            max_size: -1i32,
            align: 0,
            push: true,
        },
        Query::Caps { filter } => QueryAnswer::Caps(caps_answer(configured, filter)),
        Query::Other => QueryAnswer::Unhandled,
    }
}

/// The state of the source pad, over its kind of caps.
#[derive(Debug)]
pub struct TcpClientSrcPadHandler<C> {
    /// The next buffer opens a stream.
    pub need_initial_events: bool,
    /// The caps that were announced last.
    pub configured_caps: Option<Arc<C>>,
}

/// The abstract state of the source pad.
#[verifier::ext_equal]
pub struct PadHandlerView<C> {
    pub need_initial_events: bool,
    pub configured_caps: Option<Arc<C>>,
}

impl<C> View for TcpClientSrcPadHandler<C> {
    type V = PadHandlerView<C>;

    open spec fn view(&self) -> PadHandlerView<C> {
        PadHandlerView {
            need_initial_events: self.need_initial_events,
            configured_caps: self.configured_caps,
        }
    }
}

impl<C> PadHandlerView<C> {
    /// The state of a pad through which nothing went yet.
    pub open spec fn fresh() -> Self {
        PadHandlerView { need_initial_events: true, configured_caps: None }
    }

    /// The events that go out before a buffer of `size` bytes, where `caps` are those
    /// of the settings and `stream_id` names the stream that the buffer opens.
    pub open spec fn events_before(
        self,
        stream_id: Seq<char>,
        caps: Option<Arc<C>>,
        size: usize,
    ) -> Seq<PadEventView<C>> {
        if self.need_initial_events {
            opening_events(stream_id, caps) + closing_events(size)
        } else {
            closing_events(size)
        }
    }

    /// The pad after those events went out.
    pub open spec fn after_events(self, caps: Option<Arc<C>>) -> Self {
        PadHandlerView {
            need_initial_events: false,
            configured_caps: if self.need_initial_events && caps is Some {
                caps
            } else {
                self.configured_caps
            },
        }
    }
}

impl<C> Default for TcpClientSrcPadHandler<C> {
    fn default() -> (handler: Self)
        ensures
            handler@ == PadHandlerView::<C>::fresh(),
    {
        TcpClientSrcPadHandler { need_initial_events: true, configured_caps: None }
    }
}

impl<C> TcpClientSrcPadHandler<C> {
    /// Takes the events that go out before a buffer of `size` bytes. `caps` are those
    /// of the settings; `high` and `low` name the stream that the buffer opens, if it
    /// opens one.
    pub fn take_events(
        &mut self,
        high: u32,
        low: u32,
        caps: &Option<Arc<C>>,
        size: usize,
    ) -> (events: Vec<PadEvent<C>>)
        ensures
            events_view(events@) == old(self)@.events_before(
                stream_id_of(high, low),
                *caps,
                size,
            ),
            final(self)@ == old(self)@.after_events(*caps),
    {
        let mut events: Vec<PadEvent<C>> = Vec::new();
        if self.need_initial_events {
            events.push(PadEvent::StreamStart { stream_id: stream_id(high, low) });
            if let Some(caps) = caps {
                events.push(PadEvent::Caps(share(caps)));
                self.configured_caps = Some(share(caps));
            }
            events.push(PadEvent::Segment);
            self.need_initial_events = false;
        }
        if size == 0 {
            events.push(PadEvent::Eos);
        }
        proof {
            assert(events_view(events@) =~= old(self)@.events_before(
                stream_id_of(high, low),
                *caps,
                size,
            ));
        }
        events
    }

    /// Returns the answer to a query from further down.
    pub fn src_query(&self, query: Query<C>) -> (answer: QueryAnswer<C>)
        ensures
            answer == answer_to(self@.configured_caps, query),
    {
        match query {
            Query::Latency => QueryAnswer::Latency { live: false, min: 0, max: 0 },
            Query::Scheduling => QueryAnswer::Scheduling {
                sequential: true,
                min_size: 1,
                max_size: -1,
                align: 0,
                push: true,
            },
            Query::Caps { filter } => {
                let caps = match (share_optional(&self.configured_caps), filter) {
                    (Some(caps), Some(filter)) => CapsAnswer::Intersection { filter, caps },
                    (Some(caps), None) => CapsAnswer::Only(caps),
                    (None, Some(filter)) => CapsAnswer::Only(filter),
                    (None, None) => CapsAnswer::Any,
                };
                QueryAnswer::Caps(caps)
            },
            Query::Other => QueryAnswer::Unhandled,
        }
    }
}

} // verus!
