pub mod momento;
pub mod redis;
pub mod redis2;
pub mod resp;
pub mod resp_lite;

use vstd::prelude::*;

verus! {

/// Why a request got no usable response.
#[derive(Clone, Copy, Debug, PartialEq, Eq, Structural)]
pub enum ResponseError {
    /// The connection failed, or the reply could not be parsed.
    Exception,
    /// No reply came within the request timeout.
    Timeout,
    /// The service refused the request for its rate.
    Ratelimited,
    /// The service timed out behind the endpoint.
    BackendTimeout,
}

/// Where a client task that holds one connection at a time stands.
#[derive(Clone, Copy, Debug, PartialEq, Eq, Structural)]
pub enum Phase {
    /// No connection: the next thing to do is to connect.
    Disconnected,
    /// Connected: the next thing to do is to take a work item.
    Ready,
    /// A request is out on the connection: the next thing is its reply.
    Awaiting,
}

/// What happened to a client task, as the task's loop sees it.
#[derive(Clone, Copy, Debug, PartialEq, Eq, Structural)]
pub enum TaskEvent {
    /// The connection attempt succeeded.
    Connected,
    /// The connection attempt failed.
    ConnectFailed,
    /// The connection attempt timed out.
    ConnectTimedOut,
    /// The work item was an order to reconnect.
    Reconnect,
    /// The work item was a request the protocol has no command for.
    Unsupported,
    /// The work item was a request with a command.
    Supported,
    /// Writing the request failed.
    SendFailed,
    /// A reply came and its validator accepted it.
    Valid,
    /// A reply came and its validator refused it.
    Invalid,
    /// Reading or parsing the reply failed.
    Exception,
    /// No reply came within the request timeout.
    TimedOut,
}

/// What one step of a client task counts: each field is the amount its
/// counter goes up by.
#[derive(Clone, Copy, Debug, PartialEq, Eq, Structural)]
pub struct StepCounts {
    pub connect: u64,
    pub connect_ok: u64,
    pub connect_ex: u64,
    pub connect_timeout: u64,
    /// Connections opened: the current-connections gauge goes up.
    pub connect_curr_up: u64,
    /// Connections dropped: the current-connections gauge goes down.
    pub connect_curr_down: u64,
    pub request: u64,
    pub request_ok: u64,
    pub request_unsupported: u64,
    pub response_ok: u64,
    pub response_ex: u64,
    pub response_timeout: u64,
}

/// One step of a client task: where it stands after the event, what it
/// counts, how long it sleeps before going on, whether it sends the request
/// now, and whether it records the response's latency.
#[derive(Clone, Copy, Debug, PartialEq, Eq, Structural)]
pub struct TaskStep {
    pub phase: Phase,
    pub counts: StepCounts,
    pub sleep_ms: u64,
    pub send: bool,
    pub record_latency: bool,
}

/// No counter moves.
pub open spec fn no_counts() -> StepCounts {
    StepCounts {
        connect: 0,
        connect_ok: 0,
        connect_ex: 0,
        connect_timeout: 0,
        connect_curr_up: 0,
        connect_curr_down: 0,
        request: 0,
        request_ok: 0,
        request_unsupported: 0,
        response_ok: 0,
        response_ex: 0,
        response_timeout: 0,
    }
}

/// The events that can come in a phase: connection outcomes when
/// disconnected, work items when ready, the outcome of the request when
/// awaiting its reply.
pub open spec fn accepts(phase: Phase, event: TaskEvent) -> bool {
    match phase {
        Phase::Disconnected => event is Connected || event is ConnectFailed || event is ConnectTimedOut,
        Phase::Ready => event is Reconnect || event is Unsupported || event is Supported,
        Phase::Awaiting => event is SendFailed || event is Valid || event is Invalid || event is Exception
            || event is TimedOut,
    }
}

/// The step a client task takes on an event. A connection attempt counts
/// once and once by its outcome; a failed one sleeps 100 ms. Every work
/// item is a request; an order to reconnect drops the connection, a request
/// without command is counted and skipped, and one with a command is sent.
/// The connection is kept after a reply its validator accepts (whose
/// latency is recorded) and dropped after any other outcome.
pub open spec fn spec_step(event: TaskEvent) -> TaskStep {
    let z = no_counts();
    match event {
        TaskEvent::Connected => TaskStep {
            phase: Phase::Ready,
            counts: StepCounts { connect: 1, connect_ok: 1, connect_curr_up: 1, ..z },
            sleep_ms: 0,
            send: false,
            record_latency: false,
        },
        TaskEvent::ConnectFailed => TaskStep {
            phase: Phase::Disconnected,
            counts: StepCounts { connect: 1, connect_ex: 1, ..z },
            sleep_ms: 100,
            send: false,
            record_latency: false,
        },
        TaskEvent::ConnectTimedOut => TaskStep {
            phase: Phase::Disconnected,
            counts: StepCounts { connect: 1, connect_timeout: 1, ..z },
            sleep_ms: 100,
            send: false,
            record_latency: false,
        },
        TaskEvent::Reconnect => TaskStep {
            phase: Phase::Disconnected,
            counts: StepCounts { request: 1, connect_curr_down: 1, ..z },
            sleep_ms: 0,
            send: false,
            record_latency: false,
        },
        TaskEvent::Unsupported => TaskStep {
            phase: Phase::Ready,
            counts: StepCounts { request: 1, request_unsupported: 1, ..z },
            sleep_ms: 0,
            send: false,
            record_latency: false,
        },
        TaskEvent::Supported => TaskStep {
            phase: Phase::Awaiting,
            counts: StepCounts { request: 1, request_ok: 1, ..z },
            sleep_ms: 0,
            send: true,
            record_latency: false,
        },
        TaskEvent::SendFailed => TaskStep {
            phase: Phase::Disconnected,
            counts: StepCounts { response_ex: 1, connect_curr_down: 1, ..z },
            sleep_ms: 0,
            send: false,
            record_latency: false,
        },
        TaskEvent::Valid => TaskStep {
            phase: Phase::Ready,
            counts: StepCounts { response_ok: 1, ..z },
            sleep_ms: 0,
            send: false,
            record_latency: true,
        },
        TaskEvent::Invalid => TaskStep {
            phase: Phase::Disconnected,
            counts: StepCounts { response_ex: 1, connect_curr_down: 1, ..z },
            sleep_ms: 0,
            send: false,
            record_latency: false,
        },
        TaskEvent::Exception => TaskStep {
            phase: Phase::Disconnected,
            counts: StepCounts { response_ex: 1, connect_curr_down: 1, ..z },
            sleep_ms: 0,
            send: false,
            record_latency: false,
        },
        TaskEvent::TimedOut => TaskStep {
            phase: Phase::Disconnected,
            counts: StepCounts { response_timeout: 1, connect_curr_down: 1, ..z },
            sleep_ms: 0,
            send: false,
            record_latency: false,
        },
    }
}

/// Takes the step of a client task on an event that can come in its
/// phase.
pub fn step(phase: Phase, event: TaskEvent) -> (r: TaskStep)
    requires
        accepts(phase, event),
    ensures
        r == spec_step(event),
{
    let z = StepCounts {
        connect: 0,
        connect_ok: 0,
        connect_ex: 0,
        connect_timeout: 0,
        connect_curr_up: 0,
        connect_curr_down: 0,
        request: 0,
        request_ok: 0,
        request_unsupported: 0,
        response_ok: 0,
        response_ex: 0,
        response_timeout: 0,
    };
    match event {
        TaskEvent::Connected => TaskStep {
            phase: Phase::Ready,
            counts: StepCounts { connect: 1, connect_ok: 1, connect_curr_up: 1, ..z },
            sleep_ms: 0,
            send: false,
            record_latency: false,
        },
        TaskEvent::ConnectFailed => TaskStep {
            phase: Phase::Disconnected,
            counts: StepCounts { connect: 1, connect_ex: 1, ..z },
            sleep_ms: 100,
            send: false,
            record_latency: false,
        },
        TaskEvent::ConnectTimedOut => TaskStep {
            phase: Phase::Disconnected,
            counts: StepCounts { connect: 1, connect_timeout: 1, ..z },
            sleep_ms: 100,
            send: false,
            record_latency: false,
        },
        TaskEvent::Reconnect => TaskStep {
            phase: Phase::Disconnected,
            counts: StepCounts { request: 1, connect_curr_down: 1, ..z },
            sleep_ms: 0,
            send: false,
            record_latency: false,
        },
        TaskEvent::Unsupported => TaskStep {
            phase: Phase::Ready,
            counts: StepCounts { request: 1, request_unsupported: 1, ..z },
            sleep_ms: 0,
            send: false,
            record_latency: false,
        },
        TaskEvent::Supported => TaskStep {
            phase: Phase::Awaiting,
            counts: StepCounts { request: 1, request_ok: 1, ..z },
            sleep_ms: 0,
            send: true,
            record_latency: false,
        },
        TaskEvent::SendFailed => TaskStep {
            phase: Phase::Disconnected,
            counts: StepCounts { response_ex: 1, connect_curr_down: 1, ..z },
            sleep_ms: 0,
            send: false,
            record_latency: false,
        },
        TaskEvent::Valid => TaskStep {
            phase: Phase::Ready,
            counts: StepCounts { response_ok: 1, ..z },
            sleep_ms: 0,
            send: false,
            record_latency: true,
        },
        TaskEvent::Invalid => TaskStep {
            phase: Phase::Disconnected,
            counts: StepCounts { response_ex: 1, connect_curr_down: 1, ..z },
            sleep_ms: 0,
            send: false,
            record_latency: false,
        },
        TaskEvent::Exception => TaskStep {
            phase: Phase::Disconnected,
            counts: StepCounts { response_ex: 1, connect_curr_down: 1, ..z },
            sleep_ms: 0,
            send: false,
            record_latency: false,
        },
        TaskEvent::TimedOut => TaskStep {
            phase: Phase::Disconnected,
            counts: StepCounts { response_timeout: 1, connect_curr_down: 1, ..z },
            sleep_ms: 0,
            send: false,
            record_latency: false,
        },
    }
}

/// The event a reply's outcome is: the validator's verdict on a reply, or
/// the error that stood in its place. A service that limits the rate or
/// times out behind the endpoint is not part of this protocol.
pub fn response_event(response: Result<bool, ResponseError>) -> (r: TaskEvent)
    requires
        !(response matches Err(ResponseError::Ratelimited)),
        !(response matches Err(ResponseError::BackendTimeout)),
    ensures
        r == (match response {
            Ok(true) => TaskEvent::Valid,
            Ok(false) => TaskEvent::Invalid,
            Err(ResponseError::Exception) => TaskEvent::Exception,
            _ => TaskEvent::TimedOut,
        }),
{
    match response {
        Ok(true) => TaskEvent::Valid,
        Ok(false) => TaskEvent::Invalid,
        Err(ResponseError::Exception) => TaskEvent::Exception,
        _ => TaskEvent::TimedOut,
    }
}

/// The time left of a request's timeout, in milliseconds; zero when it has
/// run out.
pub fn remaining_ms(timeout_ms: u128, elapsed_ms: u128) -> (r: u128)
    ensures
        r == (if elapsed_ms >= timeout_ms { 0 } else { timeout_ms - elapsed_ms }),
{
    timeout_ms.saturating_sub(elapsed_ms)
}

/// What a client task has counted, in total.
pub struct Totals {
    pub connect: nat,
    pub connect_ok: nat,
    pub connect_ex: nat,
    pub connect_timeout: nat,
    pub connect_curr_up: nat,
    pub connect_curr_down: nat,
    pub request: nat,
    pub request_ok: nat,
    pub request_unsupported: nat,
    pub reconnect: nat,
    pub response_ok: nat,
    pub response_ex: nat,
    pub response_timeout: nat,
}

/// Totals with nothing counted.
pub open spec fn zero_totals() -> Totals {
    Totals {
        connect: 0,
        connect_ok: 0,
        connect_ex: 0,
        connect_timeout: 0,
        connect_curr_up: 0,
        connect_curr_down: 0,
        request: 0,
        request_ok: 0,
        request_unsupported: 0,
        reconnect: 0,
        response_ok: 0,
        response_ex: 0,
        response_timeout: 0,
    }
}

/// Totals after a step on an event.
pub open spec fn add_step(t: Totals, event: TaskEvent) -> Totals {
    let c = spec_step(event).counts;
    Totals {
        connect: (t.connect + c.connect) as nat,
        connect_ok: (t.connect_ok + c.connect_ok) as nat,
        connect_ex: (t.connect_ex + c.connect_ex) as nat,
        connect_timeout: (t.connect_timeout + c.connect_timeout) as nat,
        connect_curr_up: (t.connect_curr_up + c.connect_curr_up) as nat,
        connect_curr_down: (t.connect_curr_down + c.connect_curr_down) as nat,
        request: (t.request + c.request) as nat,
        request_ok: (t.request_ok + c.request_ok) as nat,
        request_unsupported: (t.request_unsupported + c.request_unsupported) as nat,
        reconnect: t.reconnect + if event is Reconnect { 1nat } else { 0nat },
        response_ok: (t.response_ok + c.response_ok) as nat,
        response_ex: (t.response_ex + c.response_ex) as nat,
        response_timeout: (t.response_timeout + c.response_timeout) as nat,
    }
}

/// Whether a task that starts without connection can see these events in
/// this order.
pub open spec fn valid_run(events: Seq<TaskEvent>) -> bool
    decreases events.len(),
{
    if events.len() == 0 {
        true
    } else {
        valid_run(events.drop_last()) && accepts(run_phase(events.drop_last()), events.last())
    }
}

/// Where a task that starts without connection stands after the events.
pub open spec fn run_phase(events: Seq<TaskEvent>) -> Phase
    decreases events.len(),
{
    if events.len() == 0 {
        Phase::Disconnected
    } else {
        spec_step(events.last()).phase
    }
}

/// What a task that starts without connection has counted after the
/// events.
pub open spec fn run_totals(events: Seq<TaskEvent>) -> Totals
    decreases events.len(),
{
    if events.len() == 0 {
        zero_totals()
    } else {
        add_step(run_totals(events.drop_last()), events.last())
    }
}

/// The counters of a client task agree with each other and with its
/// connection after any run of events: every connection attempt has one
/// outcome; the current-connections gauge (ups less downs) is one exactly
/// while a connection is held; every work item is an order to reconnect, a
/// request without command, or a sent request; and every sent request has
/// one outcome, but the one whose reply is awaited.
pub proof fn lemma_counters_agree(events: Seq<TaskEvent>)
    requires
        valid_run(events),
    ensures
        ({
            let t = run_totals(events);
            let p = run_phase(events);
            &&& t.connect == t.connect_ok + t.connect_ex + t.connect_timeout
            &&& t.connect_curr_up - t.connect_curr_down == (if p is Disconnected { 0int } else { 1int })
            &&& t.request == t.reconnect + t.request_unsupported + t.request_ok
            &&& t.request_ok == t.response_ok + t.response_ex + t.response_timeout + (if p is Awaiting {
                1int
            } else {
                0int
            })
        }),
    decreases events.len(),
{
    if events.len() > 0 {
        lemma_counters_agree(events.drop_last());
    }
}

/// A connection is kept after a reply only when its validator accepted it,
/// and only then is a latency recorded.
pub proof fn lemma_kept_only_when_valid(event: TaskEvent)
    requires
        accepts(Phase::Awaiting, event),
    ensures
        spec_step(event).phase is Ready <==> event is Valid,
        spec_step(event).record_latency <==> event is Valid,
{
}

} // verus!
