use icp_poller::{IcpPollerBuilder, ParamsOnce, Phase, PollError, TickAction};
use std::time::Duration;

fn empty_params() -> serde_json::Value {
    serde_json::Value::Array(Vec::new())
}

fn poller(limit: Option<usize>) -> IcpPollerBuilder<u64> {
    IcpPollerBuilder::new(None, "eth_blockNumber".to_string(), empty_params())
        .with_limit(limit)
        .with_poll_interval(Duration::from_secs(5))
}

fn is_request(a: &TickAction) -> bool {
    matches!(a, TickAction::Request { .. })
}

/// Reports a completed call as a host does: a success goes to the handler
/// (counted in `handled`), and a timer handed back is cleared (kept in `cleared`).
fn respond(p: &mut IcpPollerBuilder<u64>, succeeded: bool, handled: &mut usize, cleared: &mut Vec<u64>) {
    let before = p.poll_count();
    if let Some(t) = p.on_response(succeeded) {
        cleared.push(t);
    }
    if p.poll_count() > before {
        *handled += 1;
    }
}

#[test]
fn new_uses_fallback_interval_without_client_preference() {
    let p: IcpPollerBuilder<u64> = IcpPollerBuilder::new(None, "m".to_string(), empty_params());
    assert_eq!(p.poll_interval(), Duration::from_secs(7));
    assert_eq!(p.limit(), usize::MAX);
    assert_eq!(p.poll_count(), 0);
    assert_eq!(p.phase(), Phase::Idle);
    assert!(!p.params_encoded());
}

#[test]
fn new_uses_client_interval_when_known() {
    let p: IcpPollerBuilder<u64> =
        IcpPollerBuilder::new(Some(Duration::from_millis(250)), "m".to_string(), empty_params());
    assert_eq!(p.poll_interval(), Duration::from_millis(250));
}

#[test]
fn limit_setters() {
    let mut p = poller(Some(10));
    assert_eq!(p.limit(), 10);
    p.set_limit(None);
    assert_eq!(p.limit(), usize::MAX);
    p.set_limit(Some(3));
    assert_eq!(p.limit(), 3);
    p.set_poll_interval(Duration::from_secs(9));
    assert_eq!(p.poll_interval(), Duration::from_secs(9));
}

#[test]
fn start_without_client_fails_and_issues_nothing() {
    let mut p = poller(Some(3));
    match p.start(false) {
        Err(e) => {
            assert_eq!(e, PollError::ClientUnavailable);
            assert_eq!(e.message(), "Client has been dropped.");
        }
        Ok(_) => panic!("start must fail without a client"),
    }
    assert_eq!(p.phase(), Phase::Idle);
    assert!(!p.params_encoded());
}

#[test]
fn start_polls_at_once() {
    let mut p = poller(Some(3));
    let first = p.start(true).unwrap();
    match first {
        TickAction::Request { method, params } => {
            assert_eq!(method, "eth_blockNumber");
            assert_eq!(params, "[]");
        }
        _ => panic!("the first poll must issue a call"),
    }
    assert_eq!(p.phase(), Phase::Scheduled);
}

#[test]
fn params_are_encoded_as_json_text() {
    let mut params = ParamsOnce::new(serde_json::Value::Array(vec![
        serde_json::Value::String("latest".to_string()),
        serde_json::Value::Bool(false),
    ]));
    assert!(!params.is_encoded());
    let text = params.get().unwrap();
    assert_eq!(text, "[\"latest\",false]");
    assert!(params.is_encoded());
    assert_eq!(params.get().unwrap(), text);
}

#[test]
fn params_encoded_once_over_many_ticks() {
    let mut p = poller(None);
    assert!(!p.params_encoded());
    assert!(is_request(&p.start(true).unwrap()));
    assert!(p.params_encoded());
    for _ in 0..10 {
        match p.tick(true) {
            TickAction::Request { params, .. } => assert_eq!(params, "[]"),
            _ => panic!("a running poller with a client must issue a call"),
        }
        assert!(p.params_encoded());
    }
}

#[test]
fn tick_without_client_is_skipped() {
    let mut p = poller(Some(2));
    assert!(is_request(&p.start(true).unwrap()));
    assert_eq!(p.register_timer(4), None);
    assert!(matches!(p.tick(false), TickAction::Skip));
    assert_eq!(p.phase(), Phase::Scheduled);
    assert!(is_request(&p.tick(true)));
}

#[test]
fn stop_before_completion_gives_no_handler_call() {
    let mut p = poller(Some(3));
    assert_eq!(p.stop(), None);
    assert_eq!(p.phase(), Phase::Stopped);
    assert!(matches!(p.tick(true), TickAction::Inactive));
    assert_eq!(p.poll_count(), 0);
}

#[test]
fn stop_is_idempotent_and_returns_timer_once() {
    let mut p = poller(Some(3));
    assert!(is_request(&p.start(true).unwrap()));
    assert_eq!(p.register_timer(11), None);
    assert_eq!(p.on_response(false), None);
    assert_eq!(p.stop(), Some(11));
    assert_eq!(p.stop(), None);
    assert_eq!(p.phase(), Phase::Stopped);
    assert!(matches!(p.tick(true), TickAction::Inactive));
    assert_eq!(p.poll_count(), 0);
}

#[test]
fn timer_registered_after_stop_is_handed_back() {
    let mut p = poller(Some(1));
    assert!(is_request(&p.start(true).unwrap()));
    assert_eq!(p.on_response(true), None);
    assert_eq!(p.phase(), Phase::Stopped);
    assert_eq!(p.register_timer(5), Some(5));
}

#[test]
fn fail_success_success_with_limit_two() {
    let mut p = poller(Some(2));
    let mut calls = 0;
    let mut handled = 0;
    let mut cleared = Vec::new();

    if is_request(&p.start(true).unwrap()) {
        calls += 1;
    }
    assert_eq!(p.register_timer(1), None);
    respond(&mut p, false, &mut handled, &mut cleared);

    for _ in 0..2 {
        if is_request(&p.tick(true)) {
            calls += 1;
            respond(&mut p, true, &mut handled, &mut cleared);
        }
    }

    assert_eq!(calls, 3);
    assert_eq!(handled, 2);
    assert_eq!(p.poll_count(), 2);
    assert_eq!(p.phase(), Phase::Stopped);
    assert_eq!(cleared, vec![1]);
    assert!(matches!(p.tick(true), TickAction::Inactive));
}

#[test]
fn block_number_every_five_seconds_three_times() {
    let mut p = poller(Some(3));
    assert_eq!(p.poll_interval(), Duration::from_secs(5));
    let mut call_times = Vec::new();
    let mut handled = 0;
    let mut cleared = Vec::new();

    let mut timer: Option<u64> = None;
    for t in [0u64, 5, 10, 15] {
        let action = if t == 0 {
            p.start(true).unwrap()
        } else if timer.is_some() {
            p.tick(true)
        } else {
            continue;
        };
        if let TickAction::Request { method, params } = action {
            assert_eq!(method, "eth_blockNumber");
            assert_eq!(params, "[]");
            call_times.push(t);
        }
        if t == 0 {
            assert_eq!(p.register_timer(7), None);
            timer = Some(7);
        }
        respond(&mut p, true, &mut handled, &mut cleared);
        if cleared.contains(&7) {
            timer = None;
        }
    }

    assert_eq!(call_times, vec![0, 5, 10]);
    assert_eq!(handled, 3);
    assert_eq!(cleared, vec![7]);
    assert_eq!(p.phase(), Phase::Stopped);
    assert!(matches!(p.tick(true), TickAction::Inactive));
}

#[test]
fn late_completion_after_stop_still_counts() {
    let mut p = poller(Some(5));
    assert!(is_request(&p.start(true).unwrap()));
    assert_eq!(p.register_timer(2), None);
    assert_eq!(p.stop(), Some(2));
    assert_eq!(p.on_response(true), None);
    assert_eq!(p.poll_count(), 1);
    assert_eq!(p.phase(), Phase::Stopped);
}

#[test]
fn unlimited_poller_keeps_running() {
    let mut p = poller(None);
    assert!(is_request(&p.start(true).unwrap()));
    assert_eq!(p.register_timer(3), None);
    assert_eq!(p.on_response(true), None);
    for _ in 0..20 {
        assert!(is_request(&p.tick(true)));
        assert_eq!(p.on_response(true), None);
    }
    assert_eq!(p.poll_count(), 21);
    assert_eq!(p.phase(), Phase::Scheduled);
}

#[test]
fn into_stream_is_an_error() {
    let p = poller(None);
    let r = p.into_stream();
    assert_eq!(r, Err(PollError::UnsupportedOperation));
    assert_eq!(
        PollError::UnsupportedOperation.message(),
        "Streams cannot be used ICP canisters."
    );
}
