use mumble_client::error::ConnectionError;
use mumble_client::handshake::{HandshakeOutcome, HandshakeRetry, HandshakeStep, SSL_HANDSHAKE_RETRIES};

/// Drives the policy against a transport that is interrupted `k` times, then
/// completes; gives the attempts made and whether the connection succeeded.
fn drive(k: usize) -> (u8, HandshakeStep) {
    let mut policy = HandshakeRetry::new();
    let mut seen: usize = 0;
    loop {
        let outcome = if seen < k { HandshakeOutcome::Interrupted } else { HandshakeOutcome::Completed };
        seen += 1;
        match policy.record(outcome) {
            HandshakeStep::Retry => continue,
            step => return (policy.attempts(), step),
        }
    }
}

#[test]
fn handshake_completes_first_time() {
    let (attempts, step) = drive(0);
    assert_eq!(attempts, 1);
    assert!(matches!(step, HandshakeStep::Finish));
}

#[test]
fn handshake_survives_two_interruptions() {
    for k in 1..3 {
        let (attempts, step) = drive(k);
        assert_eq!(attempts as usize, k + 1);
        assert!(matches!(step, HandshakeStep::Finish));
    }
}

#[test]
fn handshake_gives_up_after_bound() {
    for k in 3..8 {
        let (attempts, step) = drive(k);
        assert_eq!(attempts, SSL_HANDSHAKE_RETRIES);
        assert!(matches!(step, HandshakeStep::Abort(ConnectionError::ExceededHandshakeRetries(_))));
    }
}

#[test]
fn handshake_always_interrupted_stops_at_three() {
    let mut policy = HandshakeRetry::new();
    let mut calls = 0;
    loop {
        calls += 1;
        match policy.record(HandshakeOutcome::Interrupted) {
            HandshakeStep::Retry => continue,
            HandshakeStep::Abort(ConnectionError::ExceededHandshakeRetries(_)) => break,
            other => panic!("unexpected step {:?}", other),
        }
    }
    assert_eq!(calls, 3);
    assert_eq!(policy.attempts(), 3);
}

#[test]
fn handshake_hard_failure_is_not_retried() {
    let mut policy = HandshakeRetry::new();
    let err = openssl::ssl::Error::from(openssl::error::ErrorStack::get());
    let step = policy.record(HandshakeOutcome::Failed(err));
    assert!(matches!(step, HandshakeStep::Abort(ConnectionError::Ssl(_))));
    assert_eq!(policy.attempts(), 1);
}
