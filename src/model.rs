use crate::params::raw_json_of;
use vstd::prelude::*;

verus! {

/// Where a poller stands in its life: configured, running, or finished for good.
#[derive(Clone, Copy, Debug, PartialEq, Eq, Structural)]
pub enum Phase {
    Idle,
    Scheduled,
    Stopped,
}

/// The abstract state of a poller.
pub struct PollerView<H> {
    pub phase: Phase,
    pub method: Seq<char>,
    pub params: serde_json::Value,
    pub interval: core::time::Duration,
    pub limit: nat,
    pub count: nat,
    pub encoded: Option<Seq<char>>,
    pub timer: Option<H>,
}

/// What can happen to a running poller. A tick carries whether the client was
/// reachable.
pub enum Event {
    Tick { client: bool },
    Completion { succeeded: bool },
    Stop,
}

pub open spec fn started<H>(s: PollerView<H>) -> PollerView<H> {
    PollerView { phase: Phase::Scheduled, ..s }
}

/// Whether a tick issues a transport call.
pub open spec fn tick_issues<H>(s: PollerView<H>, client: bool) -> bool {
    &&& s.phase == Phase::Scheduled
    &&& client
    &&& (s.encoded is Some || raw_json_of(s.params) is Some)
}

/// Whether a tick asks the encoder for the parameters.
pub open spec fn tick_encodes<H>(s: PollerView<H>, client: bool) -> bool {
    s.phase == Phase::Scheduled && client && s.encoded is None
}

pub open spec fn after_tick<H>(s: PollerView<H>, client: bool) -> PollerView<H> {
    if tick_encodes(s, client) {
        PollerView { encoded: raw_json_of(s.params), ..s }
    } else {
        s
    }
}

pub open spec fn next_count(count: nat) -> nat {
    if count < usize::MAX {
        count + 1
    } else {
        count
    }
}

/// Whether a completed call reaches the success limit.
pub open spec fn completion_reaches_limit<H>(s: PollerView<H>, succeeded: bool) -> bool {
    succeeded && next_count(s.count) >= s.limit
}

/// The timer that a completed call clears, if any.
pub open spec fn completion_cancels<H>(s: PollerView<H>, succeeded: bool) -> Option<H> {
    if completion_reaches_limit(s, succeeded) {
        s.timer
    } else {
        None
    }
}

pub open spec fn after_completion<H>(s: PollerView<H>, succeeded: bool) -> PollerView<H> {
    if !succeeded {
        s
    } else if completion_reaches_limit(s, succeeded) {
        PollerView {
            count: next_count(s.count),
            phase: if s.phase == Phase::Scheduled { Phase::Stopped } else { s.phase },
            timer: None,
            ..s
        }
    } else {
        PollerView { count: next_count(s.count), ..s }
    }
}

pub open spec fn after_stop<H>(s: PollerView<H>) -> PollerView<H> {
    PollerView { phase: Phase::Stopped, timer: None, ..s }
}

pub open spec fn step<H>(s: PollerView<H>, e: Event) -> PollerView<H> {
    match e {
        Event::Tick { client } => after_tick(s, client),
        Event::Completion { succeeded } => after_completion(s, succeeded),
        Event::Stop => after_stop(s),
    }
}

pub open spec fn run<H>(s: PollerView<H>, events: Seq<Event>) -> PollerView<H>
    decreases events.len(),
{
    if events.len() == 0 {
        s
    } else {
        run(step(s, events[0]), events.drop_first())
    }
}

/// Transport calls issued by one event.
pub open spec fn calls_of<H>(s: PollerView<H>, e: Event) -> nat {
    match e {
        Event::Tick { client } => if tick_issues(s, client) { 1 } else { 0 },
        _ => 0,
    }
}

/// Handler invocations caused by one event.
pub open spec fn deliveries_of(e: Event) -> nat {
    match e {
        Event::Completion { succeeded } => if succeeded { 1 } else { 0 },
        _ => 0,
    }
}

/// Encoder invocations caused by one event.
pub open spec fn encodings_of<H>(s: PollerView<H>, e: Event) -> nat {
    match e {
        Event::Tick { client } => if tick_encodes(s, client) { 1 } else { 0 },
        _ => 0,
    }
}

pub open spec fn calls<H>(s: PollerView<H>, events: Seq<Event>) -> nat
    decreases events.len(),
{
    if events.len() == 0 {
        0
    } else {
        calls_of(s, events[0]) + calls(step(s, events[0]), events.drop_first())
    }
}

pub open spec fn deliveries<H>(s: PollerView<H>, events: Seq<Event>) -> nat
    decreases events.len(),
{
    if events.len() == 0 {
        0
    } else {
        deliveries_of(events[0]) + deliveries(step(s, events[0]), events.drop_first())
    }
}

pub open spec fn encodings<H>(s: PollerView<H>, events: Seq<Event>) -> nat
    decreases events.len(),
{
    if events.len() == 0 {
        0
    } else {
        encodings_of(s, events[0]) + encodings(step(s, events[0]), events.drop_first())
    }
}

/// Whether a sequence of events can happen: each completion answers a call
/// that is still outstanding (`pending` counts them). With `single_flight`,
/// a tick issues a call only when none is outstanding.
pub open spec fn admissible<H>(s: PollerView<H>, pending: nat, events: Seq<Event>, single_flight: bool) -> bool
    decreases events.len(),
{
    if events.len() == 0 {
        true
    } else {
        let e = events[0];
        let here = match e {
            Event::Tick { .. } => single_flight && calls_of(s, e) == 1 ==> pending == 0,
            Event::Completion { .. } => pending > 0,
            Event::Stop => true,
        };
        let pending_next: nat = match e {
            Event::Tick { .. } => pending + calls_of(s, e),
            Event::Completion { .. } => (pending - 1) as nat,
            Event::Stop => pending,
        };
        here && admissible(step(s, e), pending_next, events.drop_first(), single_flight)
    }
}

/// A timer is held only by a running poller.
pub open spec fn timer_only_while_running<H>(s: PollerView<H>) -> bool {
    s.timer is Some ==> s.phase == Phase::Scheduled
}

/// Whatever happens, a stopped poller stays stopped, the success count never
/// decreases, the limit, method and parameters stay as they were, and a timer is held only
/// while the poller runs.
pub proof fn lemma_lifecycle<H>(s: PollerView<H>, events: Seq<Event>)
    requires
        timer_only_while_running(s),
    ensures
        s.phase == Phase::Stopped ==> run(s, events).phase == Phase::Stopped,
        run(s, events).count >= s.count,
        run(s, events).limit == s.limit,
        run(s, events).method == s.method,
        run(s, events).params == s.params,
        timer_only_while_running(run(s, events)),
    decreases events.len(),
{
    if events.len() > 0 {
        lemma_lifecycle(step(s, events[0]), events.drop_first());
    }
}

/// A stopped poller with no call outstanding issues no call, invokes no handler
/// and stays stopped, whatever happens next.
pub proof fn lemma_stopped_is_silent<H>(s: PollerView<H>, events: Seq<Event>, single_flight: bool)
    requires
        s.phase == Phase::Stopped,
        admissible(s, 0, events, single_flight),
    ensures
        calls(s, events) == 0,
        deliveries(s, events) == 0,
        run(s, events).phase == Phase::Stopped,
    decreases events.len(),
{
    if events.len() > 0 {
        lemma_stopped_is_silent(step(s, events[0]), events.drop_first(), single_flight);
    }
}

proof fn lemma_limit_bounds_deliveries<H>(
    s: PollerView<H>,
    pending: nat,
    before: Seq<Event>,
    after: Seq<Event>,
)
    requires
        s.phase != Phase::Idle,
        pending <= 1,
        s.count <= s.limit,
        s.limit <= usize::MAX,
        s.count == s.limit ==> s.phase == Phase::Stopped && pending == 0,
        admissible(s, pending, before + after, true),
        s.count + deliveries(s, before) == s.limit,
    ensures
        calls(run(s, before), after) == 0,
        s.count + deliveries(s, before + after) == s.limit,
    decreases before.len(),
{
    if before.len() == 0 {
        assert(before + after =~= after);
        lemma_stopped_is_silent(s, after, true);
    } else {
        let e = before[0];
        let all = before + after;
        assert(all[0] == e);
        assert(all.drop_first() =~= before.drop_first() + after);
        let pending_next: nat = match e {
            Event::Tick { .. } => pending + calls_of(s, e),
            Event::Completion { .. } => (pending - 1) as nat,
            Event::Stop => pending,
        };
        lemma_limit_bounds_deliveries(step(s, e), pending_next, before.drop_first(), after);
    }
}

/// With a limit of at least one and calls that never overlap, once the
/// limit-th call has succeeded no further call is issued, and the handler has
/// been invoked exactly as many times as the limit says.
pub proof fn lemma_limit_ends_polling<H>(s: PollerView<H>, before: Seq<Event>, after: Seq<Event>)
    requires
        s.phase == Phase::Scheduled,
        s.count == 0,
        1 <= s.limit <= usize::MAX,
        admissible(s, 0, before + after, true),
        deliveries(s, before) == s.limit,
    ensures
        calls(run(s, before), after) == 0,
        deliveries(s, before + after) == s.limit,
{
    lemma_limit_bounds_deliveries(s, 0, before, after);
}

/// Where the parameters can be encoded, the encoder is asked at most once over
/// any run, exactly once if any call is issued before an encoding is cached,
/// and never once an encoding is cached.
pub proof fn lemma_encode_once<H>(s: PollerView<H>, events: Seq<Event>)
    requires
        raw_json_of(s.params) is Some,
    ensures
        s.encoded is Some ==> encodings(s, events) == 0,
        encodings(s, events) <= 1,
        s.encoded is None && calls(s, events) > 0 ==> encodings(s, events) == 1,
    decreases events.len(),
{
    if events.len() > 0 {
        lemma_encode_once(step(s, events[0]), events.drop_first());
    }
}

/// A stop that comes while no call is outstanding leaves the poller stopped,
/// and no call or handler invocation follows.
pub proof fn lemma_stop_before_completion<H>(s: PollerView<H>, rest: Seq<Event>, single_flight: bool)
    requires
        admissible(s, 0, seq![Event::Stop] + rest, single_flight),
    ensures
        calls(s, seq![Event::Stop] + rest) == 0,
        deliveries(s, seq![Event::Stop] + rest) == 0,
        run(s, seq![Event::Stop] + rest).phase == Phase::Stopped,
{
    let all = seq![Event::Stop] + rest;
    assert(all[0] == Event::Stop);
    assert(all.drop_first() =~= rest);
    lemma_stopped_is_silent(after_stop(s), rest, single_flight);
}

} // verus!
