use crate::model::{
    after_completion, after_stop, after_tick, completion_cancels, started, tick_encodes,
    tick_issues, Phase, PollerView,
};
use crate::params::{raw_json_of, ParamsOnce};
use core::time::Duration;
use vstd::prelude::*;

verus! {

/// Seconds between polls when no client preference is known.
pub const FALLBACK_POLL_SECS: u64 = 7;

pub uninterp spec fn duration_of_secs(secs: u64) -> Duration;

/// Relies on `Duration::from_secs`: the duration of the given whole seconds; it
/// never panics.
pub assume_specification[ core::time::Duration::from_secs ](secs: u64) -> (r: Duration)
    ensures
        r == duration_of_secs(secs),
;

/// The errors that reach the caller of a poller operation.
#[derive(Clone, Copy, Debug, PartialEq, Eq, Structural)]
pub enum PollError {
    /// The client could not be reached when the poller was started.
    ClientUnavailable,
    /// The poller cannot be turned into a stream in this environment.
    UnsupportedOperation,
}

impl PollError {
    pub fn message(&self) -> (r: String)
        ensures
            r@ == match self {
                PollError::ClientUnavailable => "Client has been dropped."@,
                PollError::UnsupportedOperation => "Streams cannot be used ICP canisters."@,
            },
    {
        match self {
            PollError::ClientUnavailable => "Client has been dropped.".to_owned(),
            PollError::UnsupportedOperation => "Streams cannot be used ICP canisters.".to_owned(),
        }
    }
}

/// What the host is asked to do after a tick.
pub enum TickAction {
    /// The poller is not running: nothing to do.
    Inactive,
    /// The client could not be reached: the tick is skipped.
    Skip,
    /// The parameters could not be encoded: report the error and end the tick.
    EncodeFailed(serde_json::Error),
    /// Issue `method` with the encoded `params`, and report its outcome.
    Request { method: String, params: String },
}

/// What a tick from state `s` with client reachability `client` does, where
/// `t` is the state afterwards and `a` the action handed back.
pub open spec fn tick_outcome<H>(s: PollerView<H>, client: bool, t: PollerView<H>, a: TickAction) -> bool {
    &&& t == after_tick(s, client)
    &&& (a is Request) == tick_issues(s, client)
    &&& (a is Inactive) == (s.phase != Phase::Scheduled)
    &&& (a is Skip) == (s.phase == Phase::Scheduled && !client)
    &&& (a is EncodeFailed) ==> tick_encodes(s, client)
    &&& a matches TickAction::Request { method, params } ==> method@ == s.method && t.encoded == Some(params@)
        && raw_json_of(s.params) == Some(params@)
    &&& (a is Request) == (s.phase == Phase::Scheduled && client && raw_json_of(s.params) is Some)
    &&& (a is EncodeFailed) == (tick_encodes(s, client) && raw_json_of(s.params) is None)
}

/// A poller: its configuration, its success counter, its encoded parameters
/// and the timer that drives it. `H` identifies a host timer.
pub struct IcpPollerBuilder<H> {
    method: String,
    params: ParamsOnce,
    poll_interval: Duration,
    limit: usize,
    poll_count: usize,
    phase: Phase,
    timer_id: Option<H>,
}

impl<H> View for IcpPollerBuilder<H> {
    type V = PollerView<H>;

    closed spec fn view(&self) -> PollerView<H> {
        PollerView {
            phase: self.phase,
            method: self.method@,
            params: self.params.value(),
            interval: self.poll_interval,
            limit: self.limit as nat,
            count: self.poll_count as nat,
            encoded: self.params.encoded(),
            timer: self.timer_id,
        }
    }
}

impl<H> IcpPollerBuilder<H> {
    /// A new, idle poller with no limit. The interval is the client's preference
    /// where one is known, else a fallback of seven seconds.
    pub fn new(client_poll_interval: Option<Duration>, method: String, params: serde_json::Value) -> (r: Self)
        ensures
            r@.phase == Phase::Idle,
            r@.method == method@,
            r@.params == params,
            r@.interval == match client_poll_interval {
                Some(d) => d,
                None => duration_of_secs(FALLBACK_POLL_SECS),
            },
            r@.limit == usize::MAX,
            r@.count == 0,
            r@.encoded is None,
            r@.timer is None,
    {
        let poll_interval = match client_poll_interval {
            Some(d) => d,
            None => Duration::from_secs(FALLBACK_POLL_SECS),
        };
        IcpPollerBuilder {
            method,
            params: ParamsOnce::new(params),
            poll_interval,
            limit: usize::MAX,
            poll_count: 0,
            phase: Phase::Idle,
            timer_id: None,
        }
    }

    /// The limit on the number of successful polls.
    pub fn limit(&self) -> (r: usize)
        ensures
            r == self@.limit,
    {
        self.limit
    }

    /// Sets a limit on the number of successful polls; `None` means no limit.
    pub fn set_limit(&mut self, limit: Option<usize>)
        ensures
            final(self)@ == (PollerView {
                limit: match limit {
                    Some(n) => n as nat,
                    None => usize::MAX as nat,
                },
                ..old(self)@
            }),
    {
        self.limit = match limit {
            Some(n) => n,
            None => usize::MAX,
        };
    }

    /// Sets a limit on the number of successful polls; `None` means no limit.
    pub fn with_limit(self, limit: Option<usize>) -> (r: Self)
        ensures
            r@ == (PollerView {
                limit: match limit {
                    Some(n) => n as nat,
                    None => usize::MAX as nat,
                },
                ..self@
            }),
    {
        let mut poller = self;
        poller.set_limit(limit);
        poller
    }

    /// The duration between polls.
    pub fn poll_interval(&self) -> (r: Duration)
        ensures
            r == self@.interval,
    {
        self.poll_interval
    }

    /// Sets the duration between polls.
    pub fn set_poll_interval(&mut self, poll_interval: Duration)
        ensures
            final(self)@ == (PollerView { interval: poll_interval, ..old(self)@ }),
    {
        self.poll_interval = poll_interval;
    }

    /// Sets the duration between polls.
    pub fn with_poll_interval(self, poll_interval: Duration) -> (r: Self)
        ensures
            r@ == (PollerView { interval: poll_interval, ..self@ }),
    {
        let mut poller = self;
        poller.set_poll_interval(poll_interval);
        poller
    }

    /// The number of successful polls so far.
    pub fn poll_count(&self) -> (r: usize)
        ensures
            r == self@.count,
    {
        self.poll_count
    }

    /// Where the poller stands in its life.
    pub fn phase(&self) -> (r: Phase)
        ensures
            r == self@.phase,
    {
        self.phase
    }

    /// The method that each poll calls.
    pub fn method(&self) -> (r: &String)
        ensures
            r@ == self@.method,
    {
        &self.method
    }

    /// Whether the parameters have been encoded.
    pub fn params_encoded(&self) -> (r: bool)
        ensures
            r == self@.encoded is Some,
    {
        self.params.is_encoded()
    }

    /// One poll, at the start or when the timer fires. Only a running poller
    /// with a reachable client polls; the parameters are encoded on the first
    /// poll that gets that far and reused afterwards.
    pub fn tick(&mut self, client_available: bool) -> (r: TickAction)
        ensures
            tick_outcome(old(self)@, client_available, final(self)@, r),
    {
        match self.phase {
            Phase::Scheduled => {},
            _ => return TickAction::Inactive,
        }
        if !client_available {
            return TickAction::Skip;
        }
        match self.params.get() {
            Ok(params) => TickAction::Request { method: self.method.clone(), params },
            Err(e) => TickAction::EncodeFailed(e),
        }
    }

    /// Starts an idle poller. With the client unreachable it fails and nothing
    /// changes; otherwise the poller runs and its first poll happens at once:
    /// the action of that poll is returned. The host then registers the
    /// recurring timer with `register_timer`.
    pub fn start(&mut self, client_available: bool) -> (r: Result<TickAction, PollError>)
        requires
            old(self)@.phase == Phase::Idle,
        ensures
            !client_available ==> r == Err::<TickAction, PollError>(PollError::ClientUnavailable)
                && final(self)@ == old(self)@,
            client_available ==> (r matches Ok(a) && tick_outcome(started(old(self)@), true, final(self)@, a)),
    {
        if !client_available {
            return Err(PollError::ClientUnavailable);
        }
        self.phase = Phase::Scheduled;
        Ok(self.tick(true))
    }

    /// Hands the poller the timer that drives it. A running poller without a
    /// timer keeps it; otherwise it is handed back, to be cleared at once.
    pub fn register_timer(&mut self, timer_id: H) -> (r: Option<H>)
        ensures
            old(self)@.phase == Phase::Scheduled && old(self)@.timer is None ==> r is None
                && final(self)@ == (PollerView { timer: Some(timer_id), ..old(self)@ }),
            !(old(self)@.phase == Phase::Scheduled && old(self)@.timer is None) ==> r == Some(timer_id)
                && final(self)@ == old(self)@,
    {
        let running = match self.phase {
            Phase::Scheduled => true,
            _ => false,
        };
        if running && self.timer_id.is_none() {
            self.timer_id = Some(timer_id);
            None
        } else {
            Some(timer_id)
        }
    }

    /// A call issued by a poll has completed. A success counts and must be
    /// handed to the response handler; the success that reaches the limit stops
    /// the poller and returns its timer, to be cleared. A failure changes nothing.
    pub fn on_response(&mut self, succeeded: bool) -> (r: Option<H>)
        ensures
            final(self)@ == after_completion(old(self)@, succeeded),
            r == completion_cancels(old(self)@, succeeded),
    {
        if !succeeded {
            return None;
        }
        if self.poll_count < usize::MAX {
            self.poll_count = self.poll_count + 1;
        }
        if self.poll_count >= self.limit {
            match self.phase {
                Phase::Scheduled => {
                    self.phase = Phase::Stopped;
                },
                _ => {},
            }
            self.timer_id.take()
        } else {
            None
        }
    }

    /// Stops the poller for good. Returns the timer to clear, if one is still
    /// registered; stopping twice returns none the second time.
    pub fn stop(&mut self) -> (r: Option<H>)
        ensures
            final(self)@ == after_stop(old(self)@),
            r == old(self)@.timer,
    {
        self.phase = Phase::Stopped;
        self.timer_id.take()
    }

    /// Streams are not available in this environment: always an error.
    pub fn into_stream(&self) -> (r: Result<(), PollError>)
        ensures
            r == Err::<(), PollError>(PollError::UnsupportedOperation),
    {
        Err(PollError::UnsupportedOperation)
    }
}

} // verus!
