use sonoma_labs_toolkit::network::channel::{ChannelState, DuplexChannel, InboundEvent};
use sonoma_labs_toolkit::network::executor::{
    backoff_secs, classify_status, AttemptOutcome, ExecutorStep, RequestExecutor, StatusClass, MAX_BACKOFF_SECS,
};
use sonoma_labs_toolkit::network::governor::{Admission, ConnectionGovernor};
use sonoma_labs_toolkit::network::metrics::MetricsRecorder;
use sonoma_labs_toolkit::network::{
    Message, MessageType, NetworkConfig, NetworkError, ProtocolFault, DEFAULT_TIMEOUT, MAX_RETRIES,
};

#[test]
fn test_network_config_default() {
    let config = NetworkConfig::default();
    assert_eq!(config.url, "http://localhost:8899");
    assert_eq!(config.timeout, DEFAULT_TIMEOUT);
    assert_eq!(config.max_retries, MAX_RETRIES);
    assert_eq!(config.max_connections, 100);
    assert_eq!(config.keep_alive, 60_000);
}

#[test]
fn test_metrics_update() {
    let mut metrics = MetricsRecorder::new();
    metrics.record_response(100);
    let snapshot = metrics.snapshot();
    assert_eq!(snapshot.total_requests, 1);
    assert_eq!(snapshot.total_responses, 1);
    assert!(snapshot.average_latency <= 100);
}

#[test]
fn moving_average_of_equal_samples() {
    let mut metrics = MetricsRecorder::new();
    metrics.record_latency(100);
    metrics.record_latency(100);
    assert_eq!(metrics.snapshot().average_latency, 100);
}

#[test]
fn moving_average_of_two_samples() {
    let mut metrics = MetricsRecorder::new();
    metrics.record_latency(100);
    metrics.record_latency(300);
    let s = metrics.snapshot();
    assert_eq!(s.average_latency, 200);
    assert_eq!(s.max_latency, 300);
    metrics.record_latency(u64::MAX);
    metrics.record_latency(u64::MAX);
    let first = (200u128 + u64::MAX as u128) / 2;
    let second = (first + u64::MAX as u128) / 2;
    assert_eq!(metrics.snapshot().average_latency as u128, second);
    assert_eq!(metrics.snapshot().max_latency, u64::MAX);
}

#[test]
fn errors_and_clear() {
    let mut metrics = MetricsRecorder::new();
    metrics.record_error();
    metrics.record_response(40);
    let s = metrics.snapshot();
    assert_eq!((s.total_requests, s.total_responses, s.total_errors), (2, 1, 1));
    assert_eq!(s.average_latency, 40);
    metrics.clear();
    let s = metrics.snapshot();
    assert_eq!((s.total_requests, s.total_errors, s.average_latency, s.max_latency), (0, 0, 0, 0));
    metrics.record_latency(10);
    assert_eq!(metrics.snapshot().average_latency, 10);
}

#[test]
fn single_slot_serializes_operations() {
    let mut governor = ConnectionGovernor::new(1);
    assert_eq!(governor.acquire(), Admission::Granted);
    assert_eq!(governor.acquire(), Admission::Wait);
    assert_eq!(governor.status().active_connections, 1);
    assert_eq!(governor.status().pending_requests, 1);
    assert_eq!(governor.retry(), Admission::Wait);
    governor.release();
    assert_eq!(governor.retry(), Admission::Granted);
    let status = governor.status();
    assert_eq!((status.active_connections, status.pending_requests), (1, 0));
}

#[test]
fn closed_governor_refuses() {
    let mut governor = ConnectionGovernor::new(2);
    assert_eq!(governor.acquire(), Admission::Granted);
    governor.shutdown();
    assert_eq!(governor.acquire(), Admission::Closed);
    governor.release();
    assert_eq!(governor.status().active_connections, 0);
    governor.mark_connected(true);
    governor.record_latency(12);
    assert!(governor.status().connected);
    assert_eq!(governor.status().latency, 12);
}

#[test]
fn cancelled_waiter_leaves_the_queue() {
    let mut governor = ConnectionGovernor::new(0);
    assert_eq!(governor.acquire(), Admission::Wait);
    governor.cancel_wait();
    assert_eq!(governor.status().pending_requests, 0);
}

#[test]
fn two_failures_then_success() {
    let mut exec = RequestExecutor::new(3);
    let step = exec.on_attempt(AttemptOutcome::TransportFailure("refused".to_string()), 0);
    assert!(matches!(step, ExecutorStep::Retry { wait_secs: 2 }));
    let step = exec.on_attempt(AttemptOutcome::Response { status: 503, body: vec![] }, 0);
    assert!(matches!(step, ExecutorStep::Retry { wait_secs: 4 }));
    let step = exec.on_attempt(AttemptOutcome::Response { status: 200, body: vec![9, 9] }, 0);
    assert!(matches!(step, ExecutorStep::Done(Ok(ref b)) if b == &vec![9, 9]));
    assert_eq!(exec.attempts(), 3);
}

#[test]
fn retries_are_bounded() {
    let mut exec = RequestExecutor::new(3);
    let mut waits = vec![];
    loop {
        match exec.on_attempt(AttemptOutcome::TransportFailure("down".to_string()), 0) {
            ExecutorStep::Retry { wait_secs } => waits.push(wait_secs),
            ExecutorStep::Done(r) => {
                assert!(matches!(r, Err(NetworkError::ConnectionFailed(ref s)) if s == "down"));
                break;
            }
        }
    }
    assert_eq!(waits, vec![2, 4, 8]);
    assert_eq!(exec.attempts(), 4);
}

#[test]
fn non_retryable_outcomes() {
    let mut exec = RequestExecutor::new(3);
    assert!(matches!(
        exec.on_attempt(AttemptOutcome::Response { status: 401, body: vec![] }, 0),
        ExecutorStep::Done(Err(NetworkError::AuthenticationFailed(_)))
    ));
    assert!(matches!(
        exec.on_attempt(AttemptOutcome::Response { status: 302, body: vec![] }, 0),
        ExecutorStep::Done(Err(NetworkError::InvalidResponse(_)))
    ));
    assert_eq!(exec.attempts(), 1);
}

#[test]
fn framed_reply_is_validated() {
    let mut exec = RequestExecutor::new(3);
    let good = Message::with_timestamp(MessageType::Ping(1), 100).serialize();
    assert!(matches!(
        exec.on_attempt(AttemptOutcome::Response { status: 200, body: good.clone() }, 100),
        ExecutorStep::Done(Ok(ref b)) if b == &good
    ));
    let future = Message::with_timestamp(MessageType::Ping(1), 1_000).serialize();
    assert!(matches!(
        exec.on_attempt(AttemptOutcome::Response { status: 200, body: future }, 100),
        ExecutorStep::Done(Err(NetworkError::ProtocolError(ProtocolFault::ClockSkew(1_000))))
    ));
}

#[test]
fn backoff_doubles_up_to_the_cap() {
    assert_eq!(backoff_secs(0), 1);
    assert_eq!(backoff_secs(1), 2);
    assert_eq!(backoff_secs(2), 4);
    assert_eq!(backoff_secs(3), 8);
    assert_eq!(backoff_secs(10), MAX_BACKOFF_SECS);
    assert_eq!(backoff_secs(u32::MAX), MAX_BACKOFF_SECS);
}

#[test]
fn status_classes() {
    assert_eq!(classify_status(200), StatusClass::Success);
    assert_eq!(classify_status(299), StatusClass::Success);
    assert_eq!(classify_status(404), StatusClass::ClientError);
    assert_eq!(classify_status(500), StatusClass::ServerError);
    assert_eq!(classify_status(599), StatusClass::ServerError);
    assert_eq!(classify_status(600), StatusClass::Unrecognized);
    assert_eq!(classify_status(100), StatusClass::Unrecognized);
}

#[test]
fn disconnected_channel_refuses_then_connects() {
    let mut channel = DuplexChannel::new();
    let m = Message::with_timestamp(MessageType::Ping(3), 4);
    assert!(matches!(channel.send(&m), Err(NetworkError::NotConnected)));
    assert!(channel.begin_connect());
    assert_eq!(channel.state(), ChannelState::Connecting);
    assert!(!channel.begin_connect());
    channel.connect_succeeded();
    assert_eq!(channel.state(), ChannelState::Open);
    assert!(channel.is_connected());
    assert_eq!(channel.send(&m).unwrap(), m.serialize());
}

#[test]
fn failed_connect_stays_disconnected() {
    let mut channel = DuplexChannel::new();
    assert!(channel.begin_connect());
    let e = channel.connect_failed("no route".to_string());
    assert!(matches!(e, NetworkError::ConnectionFailed(ref s) if s == "no route"));
    assert_eq!(channel.state(), ChannelState::Disconnected);
}

#[test]
fn receive_and_close() {
    let mut channel = DuplexChannel::new();
    assert!(matches!(channel.receive(InboundEvent::Closed), Err(NetworkError::NotConnected)));
    channel.begin_connect();
    channel.connect_succeeded();
    let m = Message::with_timestamp(MessageType::Pong(8), 1);
    match channel.receive(InboundEvent::Frame(m.serialize())) {
        Ok(Some(got)) => assert_eq!(got.message_type, MessageType::Pong(8)),
        _ => panic!("expected a message"),
    }
    assert!(matches!(channel.receive(InboundEvent::Closed), Ok(None)));
    assert_eq!(channel.state(), ChannelState::Disconnected);

    channel.begin_connect();
    channel.connect_succeeded();
    assert!(matches!(
        channel.receive(InboundEvent::Frame(vec![1, 2])),
        Err(NetworkError::ProtocolError(ProtocolFault::MalformedFrame))
    ));
    assert_eq!(channel.state(), ChannelState::Disconnected);

    channel.begin_connect();
    channel.connect_succeeded();
    assert!(matches!(
        channel.receive(InboundEvent::Failure("reset".to_string())),
        Err(NetworkError::ProtocolError(ProtocolFault::Transport(ref s))) if s == "reset"
    ));
    let e = channel.write_failed("broken pipe".to_string());
    assert!(matches!(e, NetworkError::ProtocolError(ProtocolFault::Transport(_))));

    channel.begin_connect();
    channel.connect_succeeded();
    assert!(channel.begin_close());
    assert_eq!(channel.state(), ChannelState::Closing);
    assert!(!channel.begin_close());
    channel.finish_close();
    assert_eq!(channel.state(), ChannelState::Disconnected);
    assert!(!channel.begin_close());
    channel.finish_close();
    assert_eq!(channel.state(), ChannelState::Disconnected);
}
