use std::sync::mpsc::channel;

use yubico_online::aggregate::VALID_MESSAGE;
use yubico_online::{Aggregation, EndpointOutcome, YubicoError};

fn transport(m: &str) -> EndpointOutcome {
    EndpointOutcome::Failure(YubicoError::Transport(m.to_string()))
}

fn validation(m: &str) -> EndpointOutcome {
    EndpointOutcome::Failure(YubicoError::Validation(m.to_string()))
}

fn run(expected: usize, arrivals: Vec<EndpointOutcome>) -> (usize, Result<String, YubicoError>) {
    let mut aggregation = Aggregation::new(expected);
    for outcome in arrivals {
        if aggregation.is_resolved() {
            break;
        }
        aggregation.receive(outcome);
    }
    assert!(aggregation.is_resolved());
    (aggregation.received(), aggregation.finish())
}

#[test]
fn fresh_aggregation_is_pending() {
    let aggregation = Aggregation::new(3);
    assert!(!aggregation.is_resolved());
    assert_eq!(aggregation.received(), 0);
}

#[test]
fn success_after_failures_is_valid() {
    let (_, r) = run(3, vec![transport("a"), validation("b"), EndpointOutcome::Success]);
    assert_eq!(r, Ok(VALID_MESSAGE.to_string()));
    assert_eq!(VALID_MESSAGE, "The OTP is valid.");
}

#[test]
fn success_in_any_position_is_valid() {
    for pos in 0..4 {
        let mut arrivals = vec![transport("t1"), validation("v"), transport("t2")];
        arrivals.insert(pos, EndpointOutcome::Success);
        let (_, r) = run(4, arrivals);
        assert_eq!(r, Ok("The OTP is valid.".to_string()));
    }
}

#[test]
fn first_success_fixes_the_verdict_without_waiting() {
    // Endpoint 2 answers first; endpoints 1 and 3 would time out later.
    let (received, r) = run(
        3,
        vec![EndpointOutcome::Success, transport("timeout 1"), transport("timeout 3")],
    );
    assert_eq!(received, 1);
    assert_eq!(r, Ok("The OTP is valid.".to_string()));
}

#[test]
fn all_tampered_signatures_are_invalid() {
    let (received, r) = run(
        3,
        vec![validation("BAD_SIGNATURE"), validation("BAD_SIGNATURE"), validation("BAD_SIGNATURE")],
    );
    assert_eq!(received, 3);
    assert_eq!(r, Err(YubicoError::Validation("BAD_SIGNATURE".to_string())));
}

#[test]
fn single_unreachable_endpoint_is_transport_error() {
    let (received, r) = run(1, vec![transport("unreachable")]);
    assert_eq!(received, 1);
    assert_eq!(r, Err(YubicoError::Transport("unreachable".to_string())));
}

#[test]
fn last_failure_wins() {
    let (_, r) = run(3, vec![validation("first"), transport("second"), validation("third")]);
    assert_eq!(r, Err(YubicoError::Validation("third".to_string())));
    let (_, r) = run(3, vec![validation("third"), validation("first"), transport("second")]);
    assert_eq!(r, Err(YubicoError::Transport("second".to_string())));
}

#[test]
fn pending_until_every_failure_arrived() {
    let mut aggregation = Aggregation::new(2);
    aggregation.receive(transport("x"));
    assert!(!aggregation.is_resolved());
    aggregation.receive(transport("y"));
    assert!(aggregation.is_resolved());
    assert_eq!(aggregation.finish(), Err(YubicoError::Transport("y".to_string())));
}

#[test]
fn channel_failure_before_any_success() {
    let mut aggregation = Aggregation::new(3);
    aggregation.receive(transport("x"));
    aggregation.channel_failed();
    assert!(aggregation.is_resolved());
    assert_eq!(aggregation.finish(), Err(YubicoError::ChannelError));
}

#[test]
fn channel_closed_early_through_receiver() {
    let config = yubico_online::Config::default()
        .set_api_hosts(vec!["http://a".to_string(), "http://b".to_string()]);
    let verifier = yubico_online::SyncVerifier::new(config).unwrap();
    let (tx, rx) = channel();
    tx.send(validation("bad otp")).unwrap();
    drop(tx);
    let aggregation = verifier.collect_outcomes(&rx);
    assert_eq!(aggregation.received(), 1);
    assert_eq!(aggregation.finish(), Err(YubicoError::ChannelError));
}

#[test]
fn receiver_stops_at_first_success() {
    let config = yubico_online::Config::default();
    let verifier = yubico_online::SyncVerifier::new(config).unwrap();
    let (tx, rx) = channel();
    tx.send(transport("slow")).unwrap();
    tx.send(EndpointOutcome::Success).unwrap();
    tx.send(transport("late")).unwrap();
    let aggregation = verifier.collect_outcomes(&rx);
    assert_eq!(aggregation.received(), 2);
    assert_eq!(aggregation.finish(), Ok("The OTP is valid.".to_string()));
    assert_eq!(rx.recv().unwrap(), transport("late"));
}

#[test]
fn receiver_collects_all_failures() {
    let config = yubico_online::Config::default()
        .set_api_hosts(vec!["http://a".to_string(), "http://b".to_string(), "http://c".to_string()]);
    let verifier = yubico_online::SyncVerifier::new(config).unwrap();
    let (tx, rx) = channel();
    tx.send(transport("one")).unwrap();
    tx.send(validation("two")).unwrap();
    tx.send(transport("three")).unwrap();
    let aggregation = verifier.collect_outcomes(&rx);
    assert_eq!(aggregation.received(), 3);
    assert_eq!(aggregation.finish(), Err(YubicoError::Transport("three".to_string())));
}
