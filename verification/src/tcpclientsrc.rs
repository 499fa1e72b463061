//! The life of a TCP client source.
//!
//! Each operation is driven from outside: the driver reports what happened last and
//! performs the action that it gets for it, until that is the end of the operation.

use vstd::prelude::*;

use crate::message::{message, message_view, ErrorMessage, ErrorMessageView, ResourceError};
use crate::pad_handler::{
    after_push, events_view, push_action, FlowError, PadEvent, PadEventView, PadHandlerView,
    PushAction, PushActionView, StateChangeSuccess, TcpClientSrcPadHandler,
};
use crate::settings::{default_settings, Settings, SettingsView};
use crate::stream_id::{draw, drawn, stream_id_of};
use crate::text::join;

verus! {

/// The state of a source, over its kind of caps.
#[derive(Debug)]
pub struct TcpClientSrc<C> {
    pub settings: Settings<C>,
    pub pad_handler: TcpClientSrcPadHandler<C>,
    /// There is a socket.
    pub socket: bool,
    /// There is a stream of buffers from a socket.
    pub socket_stream: bool,
    /// A socket is being prepared, and nobody waited for it yet.
    pub preparation: bool,
}

/// The abstract state of a source.
#[verifier::ext_equal]
pub struct TcpClientSrcView<C> {
    pub settings: SettingsView<C>,
    pub pad_handler: PadHandlerView<C>,
    pub socket: bool,
    pub socket_stream: bool,
    pub preparation: bool,
}

impl<C> View for TcpClientSrc<C> {
    type V = TcpClientSrcView<C>;

    open spec fn view(&self) -> TcpClientSrcView<C> {
        TcpClientSrcView {
            settings: self.settings@,
            pad_handler: self.pad_handler@,
            socket: self.socket,
            socket_stream: self.socket_stream,
            preparation: self.preparation,
        }
    }
}

/// What happened last while a source is prepared. An error comes with its
/// description.
#[derive(Debug)]
pub enum PrepareEvent {
    Begin,
    ContextAcquired(Result<(), String>),
    PreparationSpawned,
}

/// What to do next while a source is prepared.
#[derive(Debug)]
pub enum PrepareAction {
    /// Get the context of this name, which runs at most once in so many milliseconds.
    AcquireContext { name: String, wait: u32 },
    /// Have the context prepare the socket.
    SpawnPreparation,
    Done,
    Fail(ErrorMessage),
}

/// A `PrepareAction` by its characters.
pub enum PrepareActionView {
    AcquireContext { name: Seq<char>, wait: u32 },
    SpawnPreparation,
    Done,
    Fail(ErrorMessageView),
}

impl View for PrepareAction {
    type V = PrepareActionView;

    open spec fn view(&self) -> PrepareActionView {
        match self {
            PrepareAction::AcquireContext { name, wait } => PrepareActionView::AcquireContext {
                name: name@,
                wait: *wait,
            },
            PrepareAction::SpawnPreparation => PrepareActionView::SpawnPreparation,
            PrepareAction::Done => PrepareActionView::Done,
            PrepareAction::Fail(message) => PrepareActionView::Fail(message@),
        }
    }
}

/// The octets of an IP address.
#[derive(Debug, Clone, Copy, PartialEq, Eq)]
pub enum IpAddress {
    V4([u8; 4]),
    V6([u8; 16]),
}

/// What happened last while the socket is prepared. An error comes with its
/// description, a failure to connect also with that of the address.
#[derive(Debug)]
pub enum SocketEvent {
    Begin,
    AddressParsed(Result<IpAddress, String>),
    Connected(Result<(), (String, String)>),
    PoolConfigured(Result<(), ()>),
    SocketPrepared(Result<(), String>),
}

/// What to do next while the socket is prepared.
#[derive(Debug)]
pub enum SocketAction {
    /// Read this as an IP address.
    ParseAddress(String),
    /// Connect to this port of this address.
    Connect { address: IpAddress, port: u16 },
    /// Configure a pool of buffers of this size.
    ConfigurePool { chunk_size: u32 },
    /// Make the socket and its stream of buffers.
    PrepareSocket,
    Done,
    Fail(ErrorMessage),
}

/// A `SocketAction` by its characters.
pub enum SocketActionView {
    ParseAddress(Seq<char>),
    Connect { address: IpAddress, port: u16 },
    ConfigurePool { chunk_size: u32 },
    PrepareSocket,
    Done,
    Fail(ErrorMessageView),
}

impl View for SocketAction {
    type V = SocketActionView;

    open spec fn view(&self) -> SocketActionView {
        match self {
            SocketAction::ParseAddress(address) => SocketActionView::ParseAddress(address@),
            SocketAction::Connect { address, port } => SocketActionView::Connect {
                address: *address,
                port: *port,
            },
            SocketAction::ConfigurePool { chunk_size } => SocketActionView::ConfigurePool {
                chunk_size: *chunk_size,
            },
            SocketAction::PrepareSocket => SocketActionView::PrepareSocket,
            SocketAction::Done => SocketActionView::Done,
            SocketAction::Fail(message) => SocketActionView::Fail(message@),
        }
    }
}

/// What happened last while a preparation is completed.
#[derive(Debug)]
pub enum CompletionEvent {
    Begin,
    /// The preparation of the socket ended.
    Joined(Result<(), ErrorMessage>),
    /// The pad was prepared; an error comes with its description.
    PadPrepared(Result<(), String>),
}

/// What to do next while a preparation is completed.
#[derive(Debug)]
pub enum CompletionAction {
    /// Wait for the preparation of the socket.
    Join,
    PreparePad,
    Done,
    Fail(ErrorMessage),
}

/// A `CompletionAction` by its characters.
pub enum CompletionActionView {
    Join,
    PreparePad,
    Done,
    Fail(ErrorMessageView),
}

impl View for CompletionAction {
    type V = CompletionActionView;

    open spec fn view(&self) -> CompletionActionView {
        match self {
            CompletionAction::Join => CompletionActionView::Join,
            CompletionAction::PreparePad => CompletionActionView::PreparePad,
            CompletionAction::Done => CompletionActionView::Done,
            CompletionAction::Fail(message) => CompletionActionView::Fail(message@),
        }
    }
}

/// What happened last while a preparation is undone.
#[derive(Debug, Clone, Copy, PartialEq, Eq, Structural)]
pub enum UnprepareEvent {
    Begin,
    TaskStopped,
    SocketUnprepared,
    PadUnprepared,
}

/// What to do next while a preparation is undone.
#[derive(Debug, Clone, Copy, PartialEq, Eq, Structural)]
pub enum UnprepareAction {
    StopTask,
    /// Take the socket and undo its preparation.
    UnprepareSocket,
    UnpreparePad,
    Done,
}

/// What happened last while the source is started.
#[derive(Debug, Clone, Copy, PartialEq, Eq, Structural)]
pub enum StartEvent {
    Begin,
    SocketStarted,
    TaskStarted,
}

/// What to do next while the source is started.
#[derive(Debug, Clone, Copy, PartialEq, Eq, Structural)]
pub enum StartAction {
    /// Start the socket with the clock and the base time of the element.
    StartSocket,
    StartTask,
    Done,
}

/// What happened last while the source is paused.
#[derive(Debug, Clone, Copy, PartialEq, Eq, Structural)]
pub enum PauseEvent {
    Begin,
    /// The task was told to pause, which it may not have done yet.
    TaskPausing,
    SocketPaused,
    TaskPaused,
}

/// What to do next while the source is paused.
#[derive(Debug, Clone, Copy, PartialEq, Eq, Structural)]
pub enum PauseAction {
    PauseTask,
    PauseSocket,
    /// Wait until the task has paused.
    AwaitTask,
    Done,
}

/// What happened last while a buffer is pushed.
#[derive(Debug)]
pub enum PushEvent<B> {
    /// A buffer of `size` bytes was read.
    Begin { size: usize },
    /// The events were pushed that go before `buffer`, and each was taken or not.
    EventsPushed { buffer: B, taken: Vec<bool> },
    /// The buffer was pushed; an error comes with its description.
    BufferPushed(Result<(), (FlowError, String)>),
}

/// What to do next while a buffer is pushed.
#[derive(Debug)]
pub enum PushStep<B, C> {
    /// Push these events, one after the other.
    SendEvents(Vec<PadEvent<C>>),
    /// Push this buffer.
    SendBuffer(B),
    /// The buffer was pushed, and this is left to do.
    Finish(PushAction),
}

/// A `PushStep` by its characters and caps.
#[verifier::ext_equal]
pub enum PushStepView<B, C> {
    SendEvents(Seq<PadEventView<C>>),
    SendBuffer(B),
    Finish(PushActionView),
}

impl<B, C> View for PushStep<B, C> {
    type V = PushStepView<B, C>;

    open spec fn view(&self) -> PushStepView<B, C> {
        match self {
            PushStep::SendEvents(events) => PushStepView::SendEvents(events_view(events@)),
            PushStep::SendBuffer(buffer) => PushStepView::SendBuffer(*buffer),
            PushStep::Finish(action) => PushStepView::Finish(action@),
        }
    }
}

/// The changes of state of an element.
#[derive(Debug, Clone, Copy, PartialEq, Eq, Structural)]
pub enum Transition {
    NullToReady,
    ReadyToPaused,
    PausedToPlaying,
    PlayingToPaused,
    PausedToReady,
    ReadyToNull,
    /// A state that stays as it is.
    Other,
}

/// The operations that a change of state runs.
#[derive(Debug, Clone, Copy, PartialEq, Eq, Structural)]
pub enum Operation {
    Prepare,
    CompletePreparation,
    Unprepare,
    Start,
    Pause,
}

/// What happened last while the state of the element changes.
#[derive(Debug)]
pub enum ChangeEvent {
    Begin,
    /// The operation ended; a failure may come with a message.
    Operated(Result<(), Option<ErrorMessage>>),
    /// The parent class changed its state.
    ParentChanged(Result<StateChangeSuccess, ()>),
    /// The start ended that followed on this success of the parent class.
    Started(StateChangeSuccess, Result<(), ()>),
}

/// What to do next while the state of the element changes.
#[derive(Debug)]
pub enum ChangeAction {
    /// Run this operation.
    Run(Operation),
    /// Have the parent class change its state.
    ChangeParent,
    /// Start the source, and report that along with this success.
    Start(StateChangeSuccess),
    /// The change succeeded.
    Finish(StateChangeSuccess),
    /// The change failed; post the message, if there is one.
    Fail(Option<ErrorMessage>),
}

/// The operation that a transition runs before the parent class changes its state.
pub open spec fn operation_before(transition: Transition) -> Option<Operation> {
    match transition {
        Transition::NullToReady => Some(Operation::Prepare),
        Transition::ReadyToPaused => Some(Operation::CompletePreparation),
        Transition::PlayingToPaused => Some(Operation::Pause),
        Transition::ReadyToNull => Some(Operation::Unprepare),
        Transition::PausedToPlaying | Transition::PausedToReady | Transition::Other => None,
    }
}

/// What to do next while the state of the element makes the given transition.
pub open spec fn change_action(transition: Transition, event: ChangeEvent) -> ChangeAction {
    match event {
        ChangeEvent::Begin => match operation_before(transition) {
            Some(operation) => ChangeAction::Run(operation),
            None => ChangeAction::ChangeParent,
        },
        ChangeEvent::Operated(Ok(())) => ChangeAction::ChangeParent,
        ChangeEvent::Operated(Err(message)) => ChangeAction::Fail(message),
        ChangeEvent::ParentChanged(Ok(success)) => match transition {
            Transition::ReadyToPaused => ChangeAction::Finish(StateChangeSuccess::Success),
            Transition::PausedToPlaying => ChangeAction::Start(success),
            _ => ChangeAction::Finish(success),
        },
        ChangeEvent::ParentChanged(Err(())) => ChangeAction::Fail(None),
        ChangeEvent::Started(success, Ok(())) => ChangeAction::Finish(success),
        ChangeEvent::Started(_, Err(())) => ChangeAction::Fail(None),
    }
}

/// What to do next while a socket is prepared from the given settings.
pub open spec fn socket_action<C>(
    settings: SettingsView<C>,
    event: SocketEvent,
) -> SocketActionView {
    match event {
        SocketEvent::Begin => match settings.address {
            Some(address) => SocketActionView::ParseAddress(address),
            None => SocketActionView::Fail(
                message_view(ResourceError::Settings, "No address set"@, ""@),
            ),
        },
        SocketEvent::AddressParsed(Ok(address)) => SocketActionView::Connect {
            address,
            port: (settings.port as nat % 0x1_0000) as u16,
        },
        SocketEvent::AddressParsed(Err(error)) => SocketActionView::Fail(
            message_view(
                ResourceError::Settings,
                "Invalid address '"@ + settings.address->0 + "' set: "@,
                error@,
            ),
        ),
        SocketEvent::Connected(Ok(())) => SocketActionView::ConfigurePool {
            chunk_size: settings.chunk_size,
        },
        SocketEvent::Connected(Err((address, error))) => SocketActionView::Fail(
            message_view(
                ResourceError::Settings,
                "Failed to connect to "@ + address@ + " "@,
                error@,
            ),
        ),
        SocketEvent::PoolConfigured(Ok(())) => SocketActionView::PrepareSocket,
        SocketEvent::PoolConfigured(Err(())) => SocketActionView::Fail(
            message_view(ResourceError::Settings, "Failed to configure buffer pool"@, ""@),
        ),
        SocketEvent::SocketPrepared(Ok(())) => SocketActionView::Done,
        SocketEvent::SocketPrepared(Err(error)) => SocketActionView::Fail(
            message_view(ResourceError::OpenRead, "Failed to prepare socket "@, error@),
        ),
    }
}

impl<C> TcpClientSrcView<C> {
    /// A source that was just made.
    pub open spec fn fresh() -> Self {
        TcpClientSrcView {
            settings: default_settings(),
            pad_handler: PadHandlerView::fresh(),
            socket: false,
            socket_stream: false,
            preparation: false,
        }
    }

    /// A source with a socket has a stream of buffers from it.
    pub open spec fn wf(self) -> bool {
        self.socket ==> self.socket_stream
    }

    /// What to do next while the source is prepared.
    pub open spec fn prepare_action(self, event: PrepareEvent) -> PrepareActionView {
        match event {
            PrepareEvent::Begin => PrepareActionView::AcquireContext {
                name: self.settings.context,
                wait: self.settings.context_wait,
            },
            PrepareEvent::ContextAcquired(Ok(())) => PrepareActionView::SpawnPreparation,
            PrepareEvent::ContextAcquired(Err(error)) => PrepareActionView::Fail(
                message_view(ResourceError::OpenRead, "Failed to acquire Context: "@, error@),
            ),
            PrepareEvent::PreparationSpawned => PrepareActionView::Done,
        }
    }

    /// The source after an event while it is prepared.
    pub open spec fn after_prepare(self, event: PrepareEvent) -> Self {
        if event is PreparationSpawned {
            TcpClientSrcView { preparation: true, ..self }
        } else {
            self
        }
    }

    /// The source after an event while its socket is prepared.
    pub open spec fn after_socket(self, event: SocketEvent) -> Self {
        if event matches SocketEvent::SocketPrepared(Ok(_)) {
            TcpClientSrcView { socket: true, socket_stream: true, ..self }
        } else {
            self
        }
    }

    /// What to do next while the preparation is completed.
    pub open spec fn completion_action(self, event: CompletionEvent) -> CompletionActionView {
        match event {
            CompletionEvent::Begin => CompletionActionView::Join,
            CompletionEvent::Joined(Ok(())) => CompletionActionView::PreparePad,
            CompletionEvent::Joined(Err(message)) => CompletionActionView::Fail(message@),
            CompletionEvent::PadPrepared(Ok(())) => CompletionActionView::Done,
            CompletionEvent::PadPrepared(Err(error)) => CompletionActionView::Fail(
                message_view(ResourceError::OpenRead, "Error preparing src_pads: "@, error@),
            ),
        }
    }

    /// The source after an event while its preparation is completed.
    pub open spec fn after_completion(self, event: CompletionEvent) -> Self {
        if event is Begin {
            TcpClientSrcView { preparation: false, ..self }
        } else {
            self
        }
    }

    /// The source after an event while its preparation is undone.
    pub open spec fn after_unprepare(self, event: UnprepareEvent) -> Self {
        match event {
            UnprepareEvent::TaskStopped => TcpClientSrcView { socket: false, ..self },
            UnprepareEvent::PadUnprepared => TcpClientSrcView {
                pad_handler: PadHandlerView { configured_caps: None, ..self.pad_handler },
                ..self
            },
            _ => self,
        }
    }

    /// What to do next while a buffer is pushed, where `stream_id` names the stream that
    /// the buffer opens.
    pub open spec fn push_step<B>(
        self,
        stream_id: Seq<char>,
        event: PushEvent<B>,
    ) -> PushStepView<B, C> {
        match event {
            PushEvent::Begin { size } => PushStepView::SendEvents(
                self.pad_handler.events_before(stream_id, self.settings.caps, size),
            ),
            PushEvent::EventsPushed { buffer, .. } => PushStepView::SendBuffer(buffer),
            PushEvent::BufferPushed(Ok(())) => PushStepView::Finish(
                push_action(None, Seq::empty()),
            ),
            PushEvent::BufferPushed(Err((error, reason))) => PushStepView::Finish(
                push_action(Some(error), reason@),
            ),
        }
    }

    /// The source after an event while a buffer is pushed.
    pub open spec fn after_push_event<B>(self, event: PushEvent<B>) -> Self {
        if event is Begin {
            TcpClientSrcView {
                pad_handler: self.pad_handler.after_events(self.settings.caps),
                ..self
            }
        } else {
            self
        }
    }

    /// The source after an event while its state makes the given transition.
    pub open spec fn after_change(self, transition: Transition, event: ChangeEvent) -> Self {
        if transition == Transition::PausedToReady && (event matches ChangeEvent::ParentChanged(
            Ok(_),
        )) {
            TcpClientSrcView {
                pad_handler: PadHandlerView { need_initial_events: true, ..self.pad_handler },
                ..self
            }
        } else {
            self
        }
    }
}

/// What to do next while a preparation is undone.
pub open spec fn unprepare_action(event: UnprepareEvent) -> UnprepareAction {
    match event {
        UnprepareEvent::Begin => UnprepareAction::StopTask,
        UnprepareEvent::TaskStopped => UnprepareAction::UnprepareSocket,
        UnprepareEvent::SocketUnprepared => UnprepareAction::UnpreparePad,
        UnprepareEvent::PadUnprepared => UnprepareAction::Done,
    }
}

/// What to do next while a source is started that has a socket, or has none.
pub open spec fn start_action(socket: bool, event: StartEvent) -> StartAction {
    match event {
        StartEvent::Begin => if socket {
            StartAction::StartSocket
        } else {
            StartAction::StartTask
        },
        StartEvent::SocketStarted => StartAction::StartTask,
        StartEvent::TaskStarted => StartAction::Done,
    }
}

/// What to do next while a source is paused.
pub open spec fn pause_action(event: PauseEvent) -> PauseAction {
    match event {
        PauseEvent::Begin => PauseAction::PauseTask,
        PauseEvent::TaskPausing => PauseAction::PauseSocket,
        PauseEvent::SocketPaused => PauseAction::AwaitTask,
        PauseEvent::TaskPaused => PauseAction::Done,
    }
}

impl<C> TcpClientSrc<C> {
    /// Makes a source with the default settings.
    pub fn new() -> (src: TcpClientSrc<C>)
        ensures
            src@.wf(),
            src@ == TcpClientSrcView::<C>::fresh(),
    {
        TcpClientSrc {
            settings: Settings::default(),
            pad_handler: TcpClientSrcPadHandler::default(),
            socket: false,
            socket_stream: false,
            preparation: false,
        }
    }

    /// Prepares the source: gets its context, and has that prepare the socket.
    pub fn prepare(&mut self, event: PrepareEvent) -> (action: PrepareAction)
        requires
            old(self)@.wf(),
        ensures
            final(self)@.wf(),
            action@ == old(self)@.prepare_action(event),
            final(self)@ == old(self)@.after_prepare(event),
    {
        match event {
            PrepareEvent::Begin => PrepareAction::AcquireContext {
                name: self.settings.context.clone(),
                wait: self.settings.context_wait,
            },
            PrepareEvent::ContextAcquired(Ok(())) => PrepareAction::SpawnPreparation,
            PrepareEvent::ContextAcquired(Err(error)) => PrepareAction::Fail(
                message(ResourceError::OpenRead, "Failed to acquire Context: ", error.as_str()),
            ),
            PrepareEvent::PreparationSpawned => {
                self.preparation = true;
                PrepareAction::Done
            },
        }
    }

    /// Prepares the socket from `settings`, those of the source when this began: reads
    /// the address, connects to what was read, configures a pool of buffers, and makes
    /// the socket and its stream of buffers. There was an address to read if it was
    /// read.
    pub fn prepare_socket(&mut self, settings: &Settings<C>, event: SocketEvent) -> (action:
        SocketAction)
        requires
            old(self)@.wf(),
            event is AddressParsed ==> settings@.address is Some,
        ensures
            final(self)@.wf(),
            action@ == socket_action(settings@, event),
            final(self)@ == old(self)@.after_socket(event),
    {
        match event {
            SocketEvent::Begin => match &settings.address {
                Some(address) => SocketAction::ParseAddress(address.clone()),
                None => SocketAction::Fail(
                    message(ResourceError::Settings, "No address set", ""),
                ),
            },
            SocketEvent::AddressParsed(Ok(address)) => SocketAction::Connect {
                address,
                port: low_u16(settings.port),
            },
            SocketEvent::AddressParsed(Err(error)) => {
                let address = settings.address.as_ref().unwrap();
                let intro = join(join("Invalid address '", address.as_str()).as_str(), "' set: ");
                SocketAction::Fail(
                    message(ResourceError::Settings, intro.as_str(), error.as_str()),
                )
            },
            SocketEvent::Connected(Ok(())) => SocketAction::ConfigurePool {
                chunk_size: settings.chunk_size,
            },
            SocketEvent::Connected(Err((address, error))) => {
                let intro = join(join("Failed to connect to ", address.as_str()).as_str(), " ");
                SocketAction::Fail(
                    message(ResourceError::Settings, intro.as_str(), error.as_str()),
                )
            },
            SocketEvent::PoolConfigured(Ok(())) => SocketAction::PrepareSocket,
            SocketEvent::PoolConfigured(Err(())) => SocketAction::Fail(
                message(ResourceError::Settings, "Failed to configure buffer pool", ""),
            ),
            SocketEvent::SocketPrepared(Ok(())) => {
                self.socket_stream = true;
                self.socket = true;
                SocketAction::Done
            },
            SocketEvent::SocketPrepared(Err(error)) => SocketAction::Fail(
                message(ResourceError::OpenRead, "Failed to prepare socket ", error.as_str()),
            ),
        }
    }

    /// Completes a preparation that is under way: waits for that of the socket, and
    /// then prepares the pad.
    pub fn complete_preparation(&mut self, event: CompletionEvent) -> (action: CompletionAction)
        requires
            old(self)@.wf(),
            event is Begin ==> old(self)@.preparation,
        ensures
            final(self)@.wf(),
            action@ == old(self)@.completion_action(event),
            final(self)@ == old(self)@.after_completion(event),
    {
        match event {
            CompletionEvent::Begin => {
                self.preparation = false;
                CompletionAction::Join
            },
            CompletionEvent::Joined(Ok(())) => CompletionAction::PreparePad,
            CompletionEvent::Joined(Err(message)) => CompletionAction::Fail(message),
            CompletionEvent::PadPrepared(Ok(())) => CompletionAction::Done,
            CompletionEvent::PadPrepared(Err(error)) => CompletionAction::Fail(
                message(ResourceError::OpenRead, "Error preparing src_pads: ", error.as_str()),
            ),
        }
    }

    /// Undoes a preparation: stops the task, takes the socket and undoes its
    /// preparation, undoes that of the pad, and forgets the caps. There is a socket
    /// to take once the task was stopped.
    pub fn unprepare(&mut self, event: UnprepareEvent) -> (action: UnprepareAction)
        requires
            old(self)@.wf(),
            event == UnprepareEvent::TaskStopped ==> old(self)@.socket,
        ensures
            final(self)@.wf(),
            action == unprepare_action(event),
            final(self)@ == old(self)@.after_unprepare(event),
    {
        match event {
            UnprepareEvent::Begin => UnprepareAction::StopTask,
            UnprepareEvent::TaskStopped => {
                self.socket = false;
                UnprepareAction::UnprepareSocket
            },
            UnprepareEvent::SocketUnprepared => UnprepareAction::UnpreparePad,
            UnprepareEvent::PadUnprepared => {
                self.pad_handler.configured_caps = None;
                UnprepareAction::Done
            },
        }
    }

    /// Starts the source: its socket, if there is one, and then its task.
    pub fn start(&self, event: StartEvent) -> (action: StartAction)
        ensures
            action == start_action(self@.socket, event),
    {
        match event {
            StartEvent::Begin => if self.socket {
                StartAction::StartSocket
            } else {
                StartAction::StartTask
            },
            StartEvent::SocketStarted => StartAction::StartTask,
            StartEvent::TaskStarted => StartAction::Done,
        }
    }

    /// Pauses the source: tells its task to pause, pauses its socket, and waits for
    /// the task. There is a socket to pause once the task was told.
    pub fn pause(&self, event: PauseEvent) -> (action: PauseAction)
        requires
            event == PauseEvent::TaskPausing ==> self@.socket,
        ensures
            action == pause_action(event),
    {
        match event {
            PauseEvent::Begin => PauseAction::PauseTask,
            PauseEvent::TaskPausing => PauseAction::PauseSocket,
            PauseEvent::SocketPaused => PauseAction::AwaitTask,
            PauseEvent::TaskPaused => PauseAction::Done,
        }
    }

    /// Pushes a buffer: first the events that go before it, then the buffer itself,
    /// whether or not the events were taken. `high` and `low` name the stream that the
    /// buffer opens, if it opens one.
    pub fn push_buffer_named<B>(&mut self, high: u32, low: u32, event: PushEvent<B>) -> (step:
        PushStep<B, C>)
        requires
            old(self)@.wf(),
        ensures
            final(self)@.wf(),
            step@ == old(self)@.push_step(stream_id_of(high, low), event),
            final(self)@ == old(self)@.after_push_event(event),
    {
        match event {
            PushEvent::Begin { size } => PushStep::SendEvents(
                self.pad_handler.take_events(high, low, &self.settings.caps, size),
            ),
            PushEvent::EventsPushed { buffer, .. } => PushStep::SendBuffer(buffer),
            PushEvent::BufferPushed(result) => PushStep::Finish(after_push(result)),
        }
    }

    /// Pushes a buffer in the same way. A stream that the buffer opens gets a random
    /// name.
    pub fn push_buffer<B>(&mut self, event: PushEvent<B>) -> (step: PushStep<B, C>)
        requires
            old(self)@.wf(),
        ensures
            final(self)@.wf(),
            exists|high: u32, low: u32|
                {
                    &&& event is Begin && old(self)@.pad_handler.need_initial_events ==> drawn(
                        high,
                        low,
                    )
                    &&& step@ == old(self)@.push_step(#[trigger] stream_id_of(high, low), event)
                },
            final(self)@ == old(self)@.after_push_event(event),
    {
        let (high, low): (u32, u32) = match event {
            PushEvent::Begin { .. } if self.pad_handler.need_initial_events => draw(),
            _ => (0, 0),
        };
        self.push_buffer_named(high, low, event)
    }

    /// Changes the state of the element: runs the operation that the transition asks
    /// for, then has the parent class change its state, and then starts the source,
    /// or has the next buffer open a stream, where the transition asks for that.
    pub fn change_state(&mut self, transition: Transition, event: ChangeEvent) -> (action:
        ChangeAction)
        requires
            old(self)@.wf(),
        ensures
            final(self)@.wf(),
            action == change_action(transition, event),
            final(self)@ == old(self)@.after_change(transition, event),
    {
        match event {
            ChangeEvent::Begin => match transition {
                Transition::NullToReady => ChangeAction::Run(Operation::Prepare),
                Transition::ReadyToPaused => ChangeAction::Run(Operation::CompletePreparation),
                Transition::PlayingToPaused => ChangeAction::Run(Operation::Pause),
                Transition::ReadyToNull => ChangeAction::Run(Operation::Unprepare),
                _ => ChangeAction::ChangeParent,
            },
            ChangeEvent::Operated(Ok(())) => ChangeAction::ChangeParent,
            ChangeEvent::Operated(Err(message)) => ChangeAction::Fail(message),
            ChangeEvent::ParentChanged(Ok(success)) => match transition {
                Transition::ReadyToPaused => ChangeAction::Finish(StateChangeSuccess::Success),
                Transition::PausedToPlaying => ChangeAction::Start(success),
                Transition::PausedToReady => {
                    self.pad_handler.need_initial_events = true;
                    ChangeAction::Finish(success)
                },
                _ => ChangeAction::Finish(success),
            },
            ChangeEvent::ParentChanged(Err(())) => ChangeAction::Fail(None),
            ChangeEvent::Started(success, Ok(())) => ChangeAction::Finish(success),
            ChangeEvent::Started(_, Err(())) => ChangeAction::Fail(None),
        }
    }
}

/// Returns the low 16 bits of `n`.
fn low_u16(n: u32) -> (low: u16)
    ensures
        low == n as nat % 0x1_0000,
{
    assert(n as u16 == n % 0x1_0000) by (bit_vector);
    #[verifier::truncate]
    (n as u16)
}

} // verus!
