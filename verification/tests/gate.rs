use stt::gate::ACCEPT_THRESHOLD;
use stt::gate::GateDecision;
use stt::gate::decide;

#[test]
fn score_at_threshold_is_rejected() {
    assert_eq!(decide(500_000, ACCEPT_THRESHOLD), GateDecision::Reject);
}

#[test]
fn score_above_threshold_is_accepted() {
    assert_eq!(decide(510_000, ACCEPT_THRESHOLD), GateDecision::Accept);
    assert_eq!(decide(500_001, ACCEPT_THRESHOLD), GateDecision::Accept);
}

#[test]
fn score_below_threshold_is_rejected() {
    assert_eq!(decide(499_999, ACCEPT_THRESHOLD), GateDecision::Reject);
    assert_eq!(decide(0, ACCEPT_THRESHOLD), GateDecision::Reject);
}

#[test]
fn out_of_range_scores_are_compared_as_is() {
    assert_eq!(decide(1_500_000, ACCEPT_THRESHOLD), GateDecision::Accept);
    assert_eq!(decide(-42, ACCEPT_THRESHOLD), GateDecision::Reject);
}
