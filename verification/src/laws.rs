//! What holds of every call: laws of the fallback controller, the stream
//! and the reporter, each proved from the transition rule.

use crate::endpoint::{
    is_loopback_text, lemma_remote_differs_from_local, local_endpoint, remote_endpoint,
    same_server, EndpointView,
};
use crate::error::{AttemptFailureView, ConnectionErrorView, ErrorView, StreamInterruptedView};
use crate::fallback::{
    call_trace, record, replay, started, usable_fallback, ControllerView, EventView, PhaseView,
    TraceView,
};
use crate::metrics::{rate_hundredths, total_tokens};
use crate::request::RequestView;
use crate::stream::{
    absorb_all, concat_texts, fresh_metrics, lemma_accumulated_text, lemma_counts_of_last_final,
    or_zero, timed, ChunkView, MetricsView,
};
use crate::text::word_count;
use vstd::prelude::*;

verus! {

/// The events by which a transport reports `chunks`, one by one.
pub open spec fn chunk_events(chunks: Seq<ChunkView>) -> Seq<EventView> {
    chunks.map_values(|c: ChunkView| EventView::Chunk(c))
}

/// Events reported one run after another give the trace of the first run
/// carried on by the second.
pub proof fn lemma_replay_append(t: TraceView, first: Seq<EventView>, second: Seq<EventView>)
    ensures
        replay(t, first + second) == replay(replay(t, first), second),
    decreases second.len(),
{
    if second.len() == 0 {
        assert(first + second =~= first);
    } else {
        lemma_replay_append(t, first, second.drop_last());
        assert((first + second).drop_last() =~= first + second.drop_last());
        assert((first + second).last() == second.last());
    }
}

/// One event carries a trace on by one step.
pub proof fn lemma_replay_one(t: TraceView, e: EventView)
    ensures
        replay(t, seq![e]) == record(t, e),
{
    assert(seq![e].drop_last() =~= Seq::<EventView>::empty());
    assert(replay(t, seq![e].drop_last()) == t);
}

/// While a stream is served, each chunk's text is written out as it
/// arrives and gathered: after `chunks` the console holds their texts in
/// arrival order behind what it held before, and nothing else changed.
pub proof fn lemma_streaming(t: TraceView, gathered: MetricsView, chunks: Seq<ChunkView>)
    requires
        t.state.phase == (PhaseView::Streaming { gathered }),
    ensures
        replay(t, chunk_events(chunks)).state == (ControllerView {
            phase: PhaseView::Streaming { gathered: absorb_all(gathered, chunks) },
            ..t.state
        }),
        replay(t, chunk_events(chunks)).seen.console == t.seen.console + concat_texts(chunks),
        replay(t, chunk_events(chunks)).seen.attempted == t.seen.attempted,
        replay(t, chunk_events(chunks)).seen.outcome == t.seen.outcome,
    decreases chunks.len(),
{
    if chunks.len() == 0 {
        assert(t.seen.console + concat_texts(chunks) =~= t.seen.console);
    } else {
        lemma_streaming(t, gathered, chunks.drop_last());
        assert(chunk_events(chunks).drop_last() =~= chunk_events(chunks.drop_last()));
        assert(chunk_events(chunks).last() == EventView::Chunk(chunks.last()));
        assert(t.seen.console + concat_texts(chunks.drop_last()) + chunks.last().text
            =~= t.seen.console + concat_texts(chunks));
    }
}

/// A call that is over stays as it is, whatever is reported afterwards.
pub proof fn lemma_done_is_final(t: TraceView, events: Seq<EventView>)
    requires
        t.state.phase is Done,
    ensures
        replay(t, events) == t,
    decreases events.len(),
{
    if events.len() > 0 {
        lemma_done_is_final(t, events.drop_last());
    }
}

/// What a transport reports of a stream that is established, yields
/// `chunks` and ends.
pub open spec fn served(chunks: Seq<ChunkView>, elapsed_ns: u128) -> Seq<EventView> {
    seq![EventView::Connected] + chunk_events(chunks) + seq![EventView::StreamEnded { elapsed_ns }]
}

/// What a transport reports of a stream that is established, yields
/// `chunks` and then breaks off.
pub open spec fn broken_off(chunks: Seq<ChunkView>, message: Seq<char>, elapsed_ns: u128) -> Seq<
    EventView,
> {
    seq![EventView::Connected] + chunk_events(chunks) + seq![
        EventView::StreamFailed { message, elapsed_ns },
    ]
}

/// The trace of a connection that was just established, and of the stream
/// that follows it until its last chunk.
proof fn lemma_connected_then_chunks(t: TraceView, chunks: Seq<ChunkView>)
    requires
        t.state.phase is Connecting,
    ensures
        replay(t, seq![EventView::Connected] + chunk_events(chunks)).state == (ControllerView {
            phase: PhaseView::Streaming { gathered: absorb_all(fresh_metrics(), chunks) },
            ..t.state
        }),
        replay(t, seq![EventView::Connected] + chunk_events(chunks)).seen.console
            == t.seen.console + concat_texts(chunks),
        replay(t, seq![EventView::Connected] + chunk_events(chunks)).seen.attempted
            == t.seen.attempted,
        replay(t, seq![EventView::Connected] + chunk_events(chunks)).seen.outcome
            == t.seen.outcome,
{
    lemma_replay_append(t, seq![EventView::Connected], chunk_events(chunks));
    lemma_replay_one(t, EventView::Connected);
    lemma_streaming(record(t, EventView::Connected), fresh_metrics(), chunks);
}

/// A successful stream on the preferred endpoint, whatever the request: the
/// console holds exactly the chunks' texts in arrival order, nothing dropped
/// and nothing reordered; the gathered text is the same; the call succeeds
/// on the preferred endpoint, which is the only one attempted.
pub proof fn lemma_success_on_preferred(
    preferred: EndpointView,
    fallback: Option<EndpointView>,
    request: RequestView,
    chunks: Seq<ChunkView>,
    elapsed_ns: u128,
)
    ensures
        ({
            let run = call_trace(preferred, fallback, request, served(chunks, elapsed_ns)).seen;
            let metrics = timed(absorb_all(fresh_metrics(), chunks), elapsed_ns);
            &&& run.console == concat_texts(chunks)
            &&& run.outcome == Some(Ok::<_, ErrorView>((metrics, preferred)))
            &&& metrics.accumulated_text == concat_texts(chunks)
            &&& run.attempted == seq![preferred]
        }),
{
    let t = started(preferred, fallback, request);
    let body = seq![EventView::Connected] + chunk_events(chunks);
    let end = EventView::StreamEnded { elapsed_ns };
    lemma_connected_then_chunks(t, chunks);
    lemma_replay_append(t, body, seq![end]);
    lemma_replay_one(replay(t, body), end);
    lemma_accumulated_text(fresh_metrics(), chunks);
    assert(Seq::<char>::empty() + concat_texts(chunks) =~= concat_texts(chunks));
    assert(t.seen.attempted =~= seq![preferred]);
}

/// Fallback: when the preferred endpoint cannot be connected to and a
/// fallback that names another server can, the call succeeds on the
/// fallback; the console holds exactly the chunks' texts in arrival order;
/// both endpoints were attempted, the preferred one first.
pub proof fn lemma_success_on_fallback(
    preferred: EndpointView,
    fallback: EndpointView,
    request: RequestView,
    message: Seq<char>,
    chunks: Seq<ChunkView>,
    elapsed_ns: u128,
)
    requires
        !same_server(preferred, fallback),
    ensures
        ({
            let run = call_trace(
                preferred,
                Some(fallback),
                request,
                seq![EventView::ConnectFailed { message }] + served(chunks, elapsed_ns),
            ).seen;
            let metrics = timed(absorb_all(fresh_metrics(), chunks), elapsed_ns);
            &&& run.console == concat_texts(chunks)
            &&& run.outcome == Some(Ok::<_, ErrorView>((metrics, fallback)))
            &&& metrics.accumulated_text == concat_texts(chunks)
            &&& run.attempted == seq![preferred, fallback]
        }),
{
    let t = started(preferred, Some(fallback), request);
    let failed = EventView::ConnectFailed { message };
    let body = seq![EventView::Connected] + chunk_events(chunks);
    let end = EventView::StreamEnded { elapsed_ns };
    lemma_replay_append(t, seq![failed], served(chunks, elapsed_ns));
    lemma_replay_one(t, failed);
    let retried = record(t, failed);
    lemma_connected_then_chunks(retried, chunks);
    lemma_replay_append(retried, body, seq![end]);
    lemma_replay_one(replay(retried, body), end);
    lemma_accumulated_text(fresh_metrics(), chunks);
    assert(Seq::<char>::empty() + concat_texts(chunks) =~= concat_texts(chunks));
    assert(retried.seen.attempted =~= seq![preferred, fallback]);
}

/// No fallback: when the preferred endpoint cannot be connected to and
/// there is no fallback that names another server, the call fails with a
/// connection error that names the preferred endpoint only. Nothing was
/// written and nothing else attempted.
pub proof fn lemma_failure_without_fallback(
    preferred: EndpointView,
    fallback: Option<EndpointView>,
    request: RequestView,
    message: Seq<char>,
)
    requires
        usable_fallback(preferred, fallback) is None,
    ensures
        ({
            let run = call_trace(
                preferred,
                fallback,
                request,
                seq![EventView::ConnectFailed { message }],
            ).seen;
            &&& run.outcome == Some(
                Err::<(MetricsView, EndpointView), _>(
                    ErrorView::Connection(
                        ConnectionErrorView {
                            earlier: None,
                            last: AttemptFailureView { endpoint: preferred, message },
                        },
                    ),
                ),
            )
            &&& run.console == Seq::<char>::empty()
            &&& run.attempted == seq![preferred]
        }),
{
    let t = started(preferred, fallback, request);
    lemma_replay_one(t, EventView::ConnectFailed { message });
    assert(t.seen.attempted =~= seq![preferred]);
}

/// Both fail: when neither the preferred endpoint nor the fallback can be
/// connected to, the call fails with a connection error that names both,
/// each with its own message, the fallback's failure as the most recent.
pub proof fn lemma_failure_of_both(
    preferred: EndpointView,
    fallback: EndpointView,
    request: RequestView,
    first_message: Seq<char>,
    second_message: Seq<char>,
)
    requires
        !same_server(preferred, fallback),
    ensures
        ({
            let run = call_trace(
                preferred,
                Some(fallback),
                request,
                seq![
                    EventView::ConnectFailed { message: first_message },
                    EventView::ConnectFailed { message: second_message },
                ],
            ).seen;
            &&& run.outcome == Some(
                Err::<(MetricsView, EndpointView), _>(
                    ErrorView::Connection(
                        ConnectionErrorView {
                            earlier: Some(
                                AttemptFailureView { endpoint: preferred, message: first_message },
                            ),
                            last: AttemptFailureView { endpoint: fallback, message: second_message },
                        },
                    ),
                ),
            )
            &&& run.console == Seq::<char>::empty()
            &&& run.attempted == seq![preferred, fallback]
        }),
{
    let t = started(preferred, Some(fallback), request);
    let first = EventView::ConnectFailed { message: first_message };
    let second = EventView::ConnectFailed { message: second_message };
    assert(seq![first, second] =~= seq![first] + seq![second]);
    lemma_replay_append(t, seq![first], seq![second]);
    lemma_replay_one(t, first);
    lemma_replay_one(record(t, first), second);
    assert(record(t, first).seen.attempted =~= seq![preferred, fallback]);
}

/// Interruption: when an established stream breaks off, the call fails as
/// interrupted, with what was gathered until then. The console holds the
/// texts of the chunks that arrived. No other endpoint is tried, even
/// where a fallback was at hand, and none will be, whatever is reported
/// afterwards.
pub proof fn lemma_interruption_is_not_retried(
    preferred: EndpointView,
    fallback: Option<EndpointView>,
    request: RequestView,
    chunks: Seq<ChunkView>,
    message: Seq<char>,
    elapsed_ns: u128,
    afterwards: Seq<EventView>,
)
    ensures
        ({
            let run = call_trace(
                preferred,
                fallback,
                request,
                broken_off(chunks, message, elapsed_ns) + afterwards,
            ).seen;
            &&& run.outcome == Some(
                Err::<(MetricsView, EndpointView), _>(
                    ErrorView::Interrupted(
                        StreamInterruptedView {
                            endpoint: preferred,
                            message,
                            partial: timed(absorb_all(fresh_metrics(), chunks), elapsed_ns),
                        },
                    ),
                ),
            )
            &&& run.console == concat_texts(chunks)
            &&& run.attempted == seq![preferred]
        }),
{
    let t = started(preferred, fallback, request);
    let body = seq![EventView::Connected] + chunk_events(chunks);
    let end = EventView::StreamFailed { message, elapsed_ns };
    lemma_connected_then_chunks(t, chunks);
    lemma_replay_append(t, body, seq![end]);
    lemma_replay_one(replay(t, body), end);
    let broken = replay(t, broken_off(chunks, message, elapsed_ns));
    lemma_replay_append(t, broken_off(chunks, message, elapsed_ns), afterwards);
    lemma_done_is_final(broken, afterwards);
    assert(Seq::<char>::empty() + concat_texts(chunks) =~= concat_texts(chunks));
    assert(t.seen.attempted =~= seq![preferred]);
}

/// What holds of a call at every moment, whatever the transport reports:
/// the preferred endpoint was attempted first; the fallback was attempted
/// only after the preferred endpoint could not be connected to, and only
/// once; a second attempt leaves no endpoint to turn to.
pub open spec fn attempts_in_order(
    preferred: EndpointView,
    fallback: Option<EndpointView>,
    t: TraceView,
) -> bool {
    ||| {
        &&& t.seen.attempted == seq![preferred]
        &&& t.state.target == preferred
        &&& t.state.spare == usable_fallback(preferred, fallback)
        &&& t.state.earlier is None
    }
    ||| {
        &&& usable_fallback(preferred, fallback) matches Some(second)
        &&& t.seen.attempted == seq![preferred, second]
        &&& t.state.target == second
        &&& t.state.spare is None
        &&& t.state.earlier matches Some(failure)
        &&& failure.endpoint == preferred
    }
}

/// At most two attempts: whatever the transport reports, a call connects
/// to the preferred endpoint first and to nothing else, unless that
/// connection failed; then it connects once more, to the fallback.
pub proof fn lemma_at_most_two_attempts(
    preferred: EndpointView,
    fallback: Option<EndpointView>,
    request: RequestView,
    events: Seq<EventView>,
)
    ensures
        attempts_in_order(
            preferred,
            fallback,
            call_trace(preferred, fallback, request, events),
        ),
        1 <= call_trace(preferred, fallback, request, events).seen.attempted.len() <= 2,
        call_trace(preferred, fallback, request, events).state.phase !is Idle,
    decreases events.len(),
{
    let t = started(preferred, fallback, request);
    if events.len() == 0 {
        assert(t.seen.attempted =~= seq![preferred]);
    } else {
        lemma_at_most_two_attempts(preferred, fallback, request, events.drop_last());
        let before = replay(t, events.drop_last());
        let after = record(before, events.last());
        match (before.state.phase, events.last()) {
            (PhaseView::Connecting, EventView::ConnectFailed { message }) => {
                match before.state.spare {
                    Some(next) => {
                        assert(after.seen.attempted =~= seq![preferred, next]);
                    },
                    None => {},
                }
            },
            _ => {},
        }
    }
}

/// A remote host always has somewhere to fall back to: the local server
/// names another server than any host that does not name this machine, so
/// the controller keeps it as the endpoint to turn to.
pub proof fn lemma_remote_call_can_fall_back(host: Seq<char>)
    requires
        !is_loopback_text(host),
    ensures
        usable_fallback(remote_endpoint(host), Some(local_endpoint())) == Some(local_endpoint()),
{
    lemma_remote_differs_from_local(host);
}

/// Word-count fallback: when the last chunk of a stream is final and
/// carries no token count, or a count of zero, the tokens reported are the
/// whitespace-delimited words of all the text that the stream wrote.
pub proof fn lemma_tokens_fall_back_to_words(chunks: Seq<ChunkView>, elapsed_ns: u128)
    requires
        chunks.len() > 0,
        chunks.last().is_final,
        or_zero(chunks.last().eval_count) == 0,
    ensures
        total_tokens(timed(absorb_all(fresh_metrics(), chunks), elapsed_ns)) == word_count(
            concat_texts(chunks),
        ),
{
    lemma_accumulated_text(fresh_metrics(), chunks);
    assert(Seq::<char>::empty() + concat_texts(chunks) =~= concat_texts(chunks));
}

/// A stream without any final chunk gathers no counts, so its tokens are
/// counted by words as well.
pub proof fn lemma_tokens_without_final_chunk(chunks: Seq<ChunkView>, elapsed_ns: u128)
    requires
        forall|i: int| 0 <= i < chunks.len() ==> !(#[trigger] chunks[i]).is_final,
    ensures
        total_tokens(timed(absorb_all(fresh_metrics(), chunks), elapsed_ns)) == word_count(
            concat_texts(chunks),
        ),
{
    lemma_accumulated_text(fresh_metrics(), chunks);
    lemma_counts_of_last_final(fresh_metrics(), chunks);
    assert(Seq::<char>::empty() + concat_texts(chunks) =~= concat_texts(chunks));
}

/// The rate over no time at all is zero, for any count: there is no
/// division by zero.
pub proof fn lemma_rate_over_no_time(count: nat)
    ensures
        rate_hundredths(count, 0) == 0,
{
}

} // verus!
