//! What a call on the source pad gives, by what goes in and what comes out.

use std::sync::Arc;

use vstd::prelude::*;

use crate::item::EventType;
use crate::pad_handler::{
    after_push, handle_item, src_event, starts_after_flush, CapsAnswer, ElementState, EventAction,
    FlowError, PadEvent, PushAction, Query, QueryAnswer, SocketError, StateChangeSuccess,
    TaskAction, TcpClientSrcPadHandler,
};
use crate::stream_id::stream_id_of;

verus! {

/// After a push the source goes on just where the push succeeded, and pauses its task
/// just where the pad flushes or is at its end. Every other error is reported, with its
/// description.
pub proof fn law_outcome_of_a_push(result: Result<(), (FlowError, String)>, action: PushAction)
    requires
        call_ensures(after_push, (result,), action),
    ensures
        action is Continue <==> result is Ok,
        action is PauseTask <==> (result matches Err((error, _)) && (error == FlowError::Flushing
            || error == FlowError::Eos)),
        action is PostError <==> (result matches Err((error, _)) && error != FlowError::Flushing
            && error != FlowError::Eos),
        action matches PushAction::PostError(failure) ==> {
            &&& failure.message@ == "Internal data stream error"@
            &&& failure.debug@ == "streaming stopped, reason "@ + result->Err_0.1@
        },
{
}

/// A buffer that was read is pushed, that very one, and nothing else is. The task pauses
/// just where the socket has stopped. Every error is reported, with its description, but
/// for the custom one, after which the task just goes on.
pub proof fn law_outcome_of_a_read<B>(item: Option<Result<B, SocketError>>, action: TaskAction<B>)
    requires
        call_ensures(handle_item::<B>, (item,), action),
    ensures
        action is Push <==> (item matches Some(Ok(_))),
        action matches TaskAction::Push(buffer) ==> item == Some(Ok::<B, SocketError>(buffer)),
        action is PauseTask <==> item is None,
        action is Continue <==> (item matches Some(Err(SocketError::Flow(error, _))) && error
            == FlowError::CustomError),
        action is PostError <==> (item matches Some(Err(error)) && (error matches SocketError::Flow(
            flow,
            _,
        ) ==> flow != FlowError::CustomError)),
        action matches TaskAction::PostError(failure) ==> match item {
            Some(Err(SocketError::Flow(_, reason))) => {
                &&& failure.message@ == "Internal data stream error"@
                &&& failure.debug@ == "streaming stopped, reason "@ + reason@
            },
            Some(Err(SocketError::Io(error))) => {
                &&& failure.message@ == "I/O error"@
                &&& failure.debug@ == "streaming stopped, I/O error "@ + error@
            },
            _ => false,
        },
{
}

/// The start of a flush pauses the source, and nothing else does. The end of a flush may
/// start it, and nothing else does. Reconfiguring and latency are handled by doing
/// nothing, and no other event is handled.
pub proof fn law_events_from_further_down(kind: EventType, action: EventAction, handled: bool)
    requires
        call_ensures(src_event, (kind,), action),
        call_ensures(EventAction::handled, (action,), handled),
    ensures
        action is Pause <==> kind is FlushStart,
        action is StartIfPlaying <==> kind is FlushStop,
        action is Nothing <==> kind is Reconfigure || kind is Latency,
        handled <==> kind is FlushStart || kind is FlushStop || kind is Reconfigure
            || kind is Latency,
{
}

/// The end of a flush starts the source just where the element has settled in playing,
/// whatever is pending, or is on its way to playing, wherever it is.
pub proof fn law_flush_starts_what_plays(
    result: Result<StateChangeSuccess, ()>,
    state: ElementState,
    pending: ElementState,
    starts: bool,
)
    requires
        call_ensures(starts_after_flush, (result, state, pending), starts),
    ensures
        result matches Ok(success) ==> {
            &&& success is Success ==> (starts <==> state is Playing)
            &&& success is Async ==> (starts <==> pending is Playing)
            &&& success is NoPreroll ==> !starts
        },
        result is Err ==> !starts,
{
}

/// Latency, scheduling and caps are answered, and nothing else is. The source is not
/// live and adds no latency; its data can only be read in sequence, in any size, and is
/// pushed. For caps the answer is the announced ones, or any, narrowed by the filter.
pub proof fn law_answers_to_queries<C>(
    handler: &TcpClientSrcPadHandler<C>,
    query: Query<C>,
    answer: QueryAnswer<C>,
)
    requires
        call_ensures(TcpClientSrcPadHandler::<C>::src_query, (handler, query), answer),
    ensures
        answer is Latency <==> query is Latency,
        answer is Scheduling <==> query is Scheduling,
        answer is Caps <==> query is Caps,
        answer matches QueryAnswer::Latency { live, min, max } ==> !live && min == 0 && max == 0,
        answer matches QueryAnswer::Scheduling { sequential, min_size, max_size, align, push } ==> {
            &&& sequential
            &&& push
            &&& min_size == 1
            &&& max_size == -1
            &&& align == 0
        },
        answer matches QueryAnswer::Caps(given) ==> (query matches Query::Caps { filter } && {
            &&& given is Any <==> handler.configured_caps is None && filter is None
            &&& given is Intersection <==> handler.configured_caps is Some && filter is Some
            &&& given matches CapsAnswer::Intersection { filter: left, caps: right } ==> {
                &&& filter == Some(left)
                &&& handler.configured_caps == Some(right)
            }
            &&& given matches CapsAnswer::Only(caps) ==> {
                ||| handler.configured_caps == Some(caps) && filter is None
                ||| handler.configured_caps is None && filter == Some(caps)
            }
        }),
{
}

/// A pad through which nothing went yet opens a stream with its first buffer, and has
/// announced no caps.
pub proof fn law_fresh_pad<C>(handler: TcpClientSrcPadHandler<C>)
    requires
        call_ensures(TcpClientSrcPadHandler::<C>::default, (), handler),
    ensures
        handler.need_initial_events,
        handler.configured_caps is None,
{
}

/// Before the buffer that opens a stream go the start of the stream under its name, the
/// caps where there are any, and the segment, in this order; before any other buffer
/// goes none of these. The end of the stream comes last, just where the buffer is empty.
/// Nothing else goes out. The caps of the stream that was opened last are remembered.
pub proof fn law_events_before_a_buffer<C>(
    handler: &mut TcpClientSrcPadHandler<C>,
    high: u32,
    low: u32,
    caps: &Option<Arc<C>>,
    size: usize,
    events: Vec<PadEvent<C>>,
)
    requires
        call_ensures(
            TcpClientSrcPadHandler::<C>::take_events,
            (handler, high, low, caps, size),
            events,
        ),
    ensures
        ({
            let opens = old(handler).need_initial_events;
            let opening: int = if !opens {
                0
            } else if caps is Some {
                3
            } else {
                2
            };
            &&& events@.len() == opening + if size == 0 {
                1int
            } else {
                0
            }
            &&& opens ==> (events@[0] matches PadEvent::StreamStart { stream_id } && stream_id@
                == stream_id_of(high, low))
            &&& opens && caps is Some ==> events@[1] == PadEvent::Caps(caps->0)
            &&& opens ==> events@[opening - 1] is Segment
            &&& size == 0 ==> events@[opening] is Eos
            &&& !final(handler).need_initial_events
            &&& final(handler).configured_caps == if opens && caps is Some {
                *caps
            } else {
                old(handler).configured_caps
            }
        }),
{
    let views = events@.map_values(|event: PadEvent<C>| event@);
    assert(views.len() == events@.len());
    assert forall|i: int| 0 <= i < events@.len() implies views[i] == (#[trigger] events@[i])@ by {}
}

} // verus!
