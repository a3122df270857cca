//! The fallback controller: one generation call as a state machine.
//!
//! The controller decides; the caller does the transport's work. Each
//! [`Action`] says what to do next, and what came of it goes back in as an
//! [`Event`]. A call is tried on the preferred endpoint; only when that
//! connection cannot be established is it tried once more, on the fallback.

use crate::endpoint::{same_server, Endpoint, EndpointView};
use crate::error::{
    AttemptFailure, AttemptFailureView, ConnectionError, ConnectionErrorView, ErrorView,
    GenerationError, StreamInterrupted, StreamInterruptedView,
};
use crate::request::{GenerationRequest, RequestView};
use crate::stream::{
    absorb, fresh_metrics, timed, ChunkView, MetricsView, RunMetrics, StreamChunk, StreamExecutor,
};
use vstd::prelude::*;
use vstd::string::StringExecFns;

verus! {

/// What the transport reports back.
#[derive(Debug)]
pub enum Event {
    /// The call is to begin.
    Start,
    /// The connection asked for could not be established.
    ConnectFailed { message: String },
    /// The connection asked for is established.
    Connected,
    /// The next chunk of the stream arrived.
    Chunk(StreamChunk),
    /// The stream ended; so much time went by since it was established.
    StreamEnded { elapsed_ns: u128 },
    /// The stream broke off; so much time went by since it was established.
    StreamFailed { message: String, elapsed_ns: u128 },
}

/// What an [`Event`] stands for.
pub enum EventView {
    Start,
    ConnectFailed { message: Seq<char> },
    Connected,
    Chunk(ChunkView),
    StreamEnded { elapsed_ns: u128 },
    StreamFailed { message: Seq<char>, elapsed_ns: u128 },
}

impl View for Event {
    type V = EventView;

    open spec fn view(&self) -> EventView {
        match self {
            Event::Start => EventView::Start,
            Event::ConnectFailed { message } => EventView::ConnectFailed { message: message@ },
            Event::Connected => EventView::Connected,
            Event::Chunk(chunk) => EventView::Chunk(chunk@),
            Event::StreamEnded { elapsed_ns } => EventView::StreamEnded { elapsed_ns: *elapsed_ns },
            Event::StreamFailed { message, elapsed_ns } => EventView::StreamFailed {
                message: message@,
                elapsed_ns: *elapsed_ns,
            },
        }
    }
}

/// How a call ended: the metrics of its stream with the endpoint that
/// served it, or the error.
pub type Outcome = Result<(RunMetrics, Endpoint), GenerationError>;

/// What an [`Outcome`] stands for.
pub type OutcomeView = Result<(MetricsView, EndpointView), ErrorView>;

/// The view of an outcome.
pub open spec fn outcome_view(outcome: Outcome) -> OutcomeView {
    match outcome {
        Ok((metrics, endpoint)) => Ok((metrics@, endpoint@)),
        Err(error) => Err(error@),
    }
}

/// What the caller is to do next.
#[derive(Debug)]
pub enum Action {
    /// Open a streaming call to `endpoint` with `request`, then report
    /// `Connected` or `ConnectFailed`.
    Connect { endpoint: Endpoint, request: GenerationRequest },
    /// Start the clock and await the stream: report each chunk as it
    /// arrives, then the end of the stream or its failure.
    Receive,
    /// Write `text` to the sink and flush it now, then go on awaiting the
    /// stream.
    Write { text: String },
    /// The call is over.
    Finish(Outcome),
    /// The event does not fit the state of the call. Nothing changed and
    /// nothing is to be done.
    Ignore,
}

/// What an [`Action`] stands for.
pub enum ActionView {
    Connect { endpoint: EndpointView, request: RequestView },
    Receive,
    Write { text: Seq<char> },
    Finish(OutcomeView),
    Ignore,
}

impl View for Action {
    type V = ActionView;

    open spec fn view(&self) -> ActionView {
        match self {
            Action::Connect { endpoint, request } => ActionView::Connect {
                endpoint: endpoint@,
                request: request@,
            },
            Action::Receive => ActionView::Receive,
            Action::Write { text } => ActionView::Write { text: text@ },
            Action::Finish(outcome) => ActionView::Finish(outcome_view(*outcome)),
            Action::Ignore => ActionView::Ignore,
        }
    }
}

/// Where a call stands.
pub enum PhaseView {
    /// Nothing was asked of the transport yet.
    Idle,
    /// A connection to the target was asked for.
    Connecting,
    /// The target serves the stream; `gathered` is what came of it so far.
    Streaming { gathered: MetricsView },
    /// The call is over.
    Done,
}

/// The state of a call.
pub struct ControllerView {
    /// The endpoint that is, or is next, connected to.
    pub target: EndpointView,
    /// The endpoint to try when the target cannot be connected to.
    pub spare: Option<EndpointView>,
    /// The attempt that failed before the target was tried.
    pub earlier: Option<AttemptFailureView>,
    pub request: RequestView,
    pub phase: PhaseView,
}

/// The fallback that counts: one that names another server than the
/// preferred endpoint.
pub open spec fn usable_fallback(
    preferred: EndpointView,
    fallback: Option<EndpointView>,
) -> Option<EndpointView> {
    match fallback {
        Some(f) => if same_server(preferred, f) {
            None
        } else {
            Some(f)
        },
        None => None,
    }
}

/// The state of a call before anything was asked of the transport.
pub open spec fn initial(
    preferred: EndpointView,
    fallback: Option<EndpointView>,
    request: RequestView,
) -> ControllerView {
    ControllerView {
        target: preferred,
        spare: usable_fallback(preferred, fallback),
        earlier: None,
        request,
        phase: PhaseView::Idle,
    }
}

/// The transition rule: the state and the action that follow from a state
/// and an event.
///
/// - `Start`, when idle: connect to the target.
/// - `ConnectFailed`, while connecting: with a spare endpoint, that becomes
///   the target and is connected to, with the same request; without one the
///   call fails, naming every attempt.
/// - `Connected`, while connecting: the stream begins with nothing
///   gathered.
/// - `Chunk`, while streaming: its text is written out and gathered.
/// - `StreamEnded`, while streaming: the call succeeds with what was
///   gathered, served by the target.
/// - `StreamFailed`, while streaming: the call fails as interrupted. No
///   other endpoint is tried.
/// - Any other pair changes nothing.
pub open spec fn step(c: ControllerView, e: EventView) -> (ControllerView, ActionView) {
    match (c.phase, e) {
        (PhaseView::Idle, EventView::Start) => (
            ControllerView { phase: PhaseView::Connecting, ..c },
            ActionView::Connect { endpoint: c.target, request: c.request },
        ),
        (PhaseView::Connecting, EventView::ConnectFailed { message }) => {
            let failure = AttemptFailureView { endpoint: c.target, message };
            match c.spare {
                Some(next) => (
                    ControllerView { target: next, spare: None, earlier: Some(failure), ..c },
                    ActionView::Connect { endpoint: next, request: c.request },
                ),
                None => (
                    ControllerView { phase: PhaseView::Done, ..c },
                    ActionView::Finish(
                        Err(
                            ErrorView::Connection(
                                ConnectionErrorView { earlier: c.earlier, last: failure },
                            ),
                        ),
                    ),
                ),
            }
        },
        (PhaseView::Connecting, EventView::Connected) => (
            ControllerView { phase: PhaseView::Streaming { gathered: fresh_metrics() }, ..c },
            ActionView::Receive,
        ),
        (PhaseView::Streaming { gathered }, EventView::Chunk(chunk)) => (
            ControllerView { phase: PhaseView::Streaming { gathered: absorb(gathered, chunk) }, ..c },
            ActionView::Write { text: chunk.text },
        ),
        (PhaseView::Streaming { gathered }, EventView::StreamEnded { elapsed_ns }) => (
            ControllerView { phase: PhaseView::Done, ..c },
            ActionView::Finish(Ok((timed(gathered, elapsed_ns), c.target))),
        ),
        (PhaseView::Streaming { gathered }, EventView::StreamFailed { message, elapsed_ns }) => (
            ControllerView { phase: PhaseView::Done, ..c },
            ActionView::Finish(
                Err(
                    ErrorView::Interrupted(
                        StreamInterruptedView {
                            endpoint: c.target,
                            message,
                            partial: timed(gathered, elapsed_ns),
                        },
                    ),
                ),
            ),
        ),
        _ => (c, ActionView::Ignore),
    }
}

#[derive(Clone, Copy, Debug, PartialEq, Eq, Structural)]
enum Phase {
    Idle,
    Connecting,
    Streaming,
    Done,
}

/// One generation call with fallback, driven event by event.
#[derive(Debug)]
pub struct FallbackController {
    target: Endpoint,
    spare: Option<Endpoint>,
    earlier: Option<AttemptFailure>,
    request: GenerationRequest,
    phase: Phase,
    executor: StreamExecutor,
}

impl View for FallbackController {
    type V = ControllerView;

    closed spec fn view(&self) -> ControllerView {
        ControllerView {
            target: self.target@,
            spare: match self.spare {
                Some(e) => Some(e@),
                None => None,
            },
            earlier: match self.earlier {
                Some(f) => Some(f@),
                None => None,
            },
            request: self.request@,
            phase: match self.phase {
                Phase::Idle => PhaseView::Idle,
                Phase::Connecting => PhaseView::Connecting,
                Phase::Streaming => PhaseView::Streaming { gathered: self.executor@ },
                Phase::Done => PhaseView::Done,
            },
        }
    }
}

/// The view of an optional endpoint.
pub open spec fn endpoint_view(endpoint: Option<Endpoint>) -> Option<EndpointView> {
    match endpoint {
        Some(e) => Some(e@),
        None => None,
    }
}

impl FallbackController {
    /// A call of `request` on `preferred`, with `fallback` to turn to. A
    /// fallback that names the same server as `preferred` is none.
    pub fn new(preferred: Endpoint, fallback: Option<Endpoint>, request: GenerationRequest) -> (c:
        FallbackController)
        ensures
            c@ == initial(preferred@, endpoint_view(fallback), request@),
    {
        let spare = match fallback {
            Some(f) => if preferred.same_server(&f) {
                None
            } else {
                Some(f)
            },
            None => None,
        };
        FallbackController {
            target: preferred,
            spare,
            earlier: None,
            request,
            phase: Phase::Idle,
            executor: StreamExecutor::start(),
        }
    }

    /// Whether the call is over.
    pub fn is_done(&self) -> (done: bool)
        ensures
            done == (self@.phase is Done),
    {
        self.phase == Phase::Done
    }

    /// Takes what the transport reports and says what to do next.
    pub fn step(&mut self, event: &Event) -> (action: Action)
        ensures
            (final(self)@, action@) == step(old(self)@, event@),
    {
        match event {
            Event::Start => {
                if self.phase == Phase::Idle {
                    self.phase = Phase::Connecting;
                    Action::Connect { endpoint: self.target.clone(), request: self.request.clone() }
                } else {
                    Action::Ignore
                }
            },
            Event::ConnectFailed { message } => {
                if self.phase == Phase::Connecting {
                    let failure = AttemptFailure {
                        endpoint: self.target.clone(),
                        message: message.clone(),
                    };
                    match self.spare.take() {
                        Some(next) => {
                            self.target = next;
                            self.earlier = Some(failure);
                            Action::Connect {
                                endpoint: self.target.clone(),
                                request: self.request.clone(),
                            }
                        },
                        None => {
                            self.phase = Phase::Done;
                            let earlier = self.earlier_copy();
                            Action::Finish(
                                Err(
                                    GenerationError::Connection(
                                        ConnectionError { earlier, last: failure },
                                    ),
                                ),
                            )
                        },
                    }
                } else {
                    Action::Ignore
                }
            },
            Event::Connected => {
                if self.phase == Phase::Connecting {
                    self.phase = Phase::Streaming;
                    self.executor = StreamExecutor::start();
                    Action::Receive
                } else {
                    Action::Ignore
                }
            },
            Event::Chunk(chunk) => {
                if self.phase == Phase::Streaming {
                    let text = self.executor.on_chunk(chunk);
                    Action::Write { text }
                } else {
                    Action::Ignore
                }
            },
            Event::StreamEnded { elapsed_ns } => {
                if self.phase == Phase::Streaming {
                    self.phase = Phase::Done;
                    let metrics = self.executor.metrics_at(*elapsed_ns);
                    Action::Finish(Ok((metrics, self.target.clone())))
                } else {
                    Action::Ignore
                }
            },
            Event::StreamFailed { message, elapsed_ns } => {
                if self.phase == Phase::Streaming {
                    self.phase = Phase::Done;
                    let partial = self.executor.metrics_at(*elapsed_ns);
                    Action::Finish(
                        Err(
                            GenerationError::Interrupted(
                                StreamInterrupted {
                                    endpoint: self.target.clone(),
                                    message: message.clone(),
                                    partial,
                                },
                            ),
                        ),
                    )
                } else {
                    Action::Ignore
                }
            },
        }
    }

    /// A copy of the attempt that failed before the target was tried.
    fn earlier_copy(&self) -> (copy: Option<AttemptFailure>)
        ensures
            copy == self.earlier,
    {
        match &self.earlier {
            Some(f) => Some(
                AttemptFailure { endpoint: f.endpoint.clone(), message: f.message.clone() },
            ),
            None => None,
        }
    }
}

/// What came of a call that was run against a recorded transport.
#[derive(Debug)]
pub struct Run {
    /// How the call ended, if the recorded events brought it to an end.
    pub outcome: Option<Outcome>,
    /// All text written to the sink, in the order written.
    pub console: String,
    /// The endpoints connected to, in the order tried.
    pub attempted: Vec<Endpoint>,
}

/// What a [`Run`] stands for.
pub struct RunView {
    pub outcome: Option<OutcomeView>,
    pub console: Seq<char>,
    pub attempted: Seq<EndpointView>,
}

impl View for Run {
    type V = RunView;

    open spec fn view(&self) -> RunView {
        RunView {
            outcome: match self.outcome {
                Some(outcome) => Some(outcome_view(outcome)),
                None => None,
            },
            console: self.console@,
            attempted: self.attempted@.map_values(|e: Endpoint| e@),
        }
    }
}

/// The record of a call of which nothing was seen yet.
pub open spec fn nothing_seen() -> RunView {
    RunView { outcome: None, console: Seq::empty(), attempted: Seq::empty() }
}

/// The record after one more action was carried out: text written goes to
/// the console, an endpoint connected to counts as attempted, and the first
/// outcome stands.
pub open spec fn carried_out(seen: RunView, action: ActionView) -> RunView {
    RunView {
        outcome: match (seen.outcome, action) {
            (None, ActionView::Finish(outcome)) => Some(outcome),
            _ => seen.outcome,
        },
        console: match action {
            ActionView::Write { text } => seen.console + text,
            _ => seen.console,
        },
        attempted: match action {
            ActionView::Connect { endpoint, request } => seen.attempted.push(endpoint),
            _ => seen.attempted,
        },
    }
}

/// A call under way: its state, and what was seen of it.
pub struct TraceView {
    pub state: ControllerView,
    pub seen: RunView,
}

/// The trace after one more event: the controller takes the step, and the
/// action it names is carried out.
pub open spec fn record(t: TraceView, e: EventView) -> TraceView {
    TraceView { state: step(t.state, e).0, seen: carried_out(t.seen, step(t.state, e).1) }
}

/// The trace after the events of `events`, in order.
pub open spec fn replay(t: TraceView, events: Seq<EventView>) -> TraceView
    decreases events.len(),
{
    if events.len() == 0 {
        t
    } else {
        record(replay(t, events.drop_last()), events.last())
    }
}

/// The trace of a call that was started and not yet answered.
pub open spec fn started(
    preferred: EndpointView,
    fallback: Option<EndpointView>,
    request: RequestView,
) -> TraceView {
    record(
        TraceView { state: initial(preferred, fallback, request), seen: nothing_seen() },
        EventView::Start,
    )
}

/// The trace of a whole call: it is started, then the transport reports
/// `events`.
pub open spec fn call_trace(
    preferred: EndpointView,
    fallback: Option<EndpointView>,
    request: RequestView,
    events: Seq<EventView>,
) -> TraceView {
    replay(started(preferred, fallback, request), events)
}

/// The views of a run of events.
pub open spec fn event_views(events: Seq<Event>) -> Seq<EventView> {
    events.map_values(|e: Event| e@)
}

impl Run {
    /// Carries out `action` on the record.
    fn carry_out(&mut self, action: Action)
        ensures
            final(self)@ == carried_out(old(self)@, action@),
    {
        match action {
            Action::Write { text } => {
                self.console.append(text.as_str());
            },
            Action::Connect { endpoint, request } => {
                self.attempted.push(endpoint);
                assert(self@.attempted =~= old(self)@.attempted.push(endpoint@));
            },
            Action::Finish(outcome) => {
                if self.outcome.is_none() {
                    self.outcome = Some(outcome);
                }
            },
            _ => {},
        }
    }
}

/// Runs one call against a recorded transport: the call is started, and
/// each event of `events` is handed to the controller in turn, as if the
/// transport had just reported it. Every action is carried out on the
/// record that is returned.
pub fn run_with_fallback(
    preferred: Endpoint,
    fallback: Option<Endpoint>,
    request: GenerationRequest,
    events: &Vec<Event>,
) -> (run: Run)
    ensures
        run@ == call_trace(
            preferred@,
            endpoint_view(fallback),
            request@,
            event_views(events@),
        ).seen,
{
    let ghost views = event_views(events@);
    let ghost begun = started(preferred@, endpoint_view(fallback), request@);
    let mut controller = FallbackController::new(preferred, fallback, request);
    let mut run = Run { outcome: None, console: String::new(), attempted: Vec::new() };
    assert(run@.attempted =~= Seq::empty());
    let action = controller.step(&Event::Start);
    run.carry_out(action);
    let mut i: usize = 0;
    while i < events.len()
        invariant
            i <= events@.len(),
            views == event_views(events@),
            controller@ == replay(begun, views.take(i as int)).state,
            run@ == replay(begun, views.take(i as int)).seen,
        decreases events@.len() - i,
    {
        let action = controller.step(&events[i]);
        run.carry_out(action);
        proof {
            assert(views.take(i + 1).drop_last() =~= views.take(i as int));
            assert(views.take(i + 1).last() == events@[i as int]@);
        }
        i += 1;
    }
    assert(views.take(i as int) =~= views);
    run
}

/// Runs one call on one endpoint against a recorded transport: a call with
/// nothing to fall back on. A connection that cannot be established ends
/// it with a connection error that names `endpoint` alone.
pub fn execute(endpoint: Endpoint, request: GenerationRequest, events: &Vec<Event>) -> (run: Run)
    ensures
        run@ == call_trace(endpoint@, None, request@, event_views(events@)).seen,
{
    run_with_fallback(endpoint, None, request, events)
}

} // verus!
