use balancer::error::BalancerError;
use balancer::relay::relay_outcome;

#[test]
fn dial_failure_is_backend_unavailable() {
    assert_eq!(
        relay_outcome(false, true),
        Err(BalancerError::BackendUnavailable)
    );
    assert_eq!(
        relay_outcome(false, false),
        Err(BalancerError::BackendUnavailable)
    );
}

#[test]
fn copy_failure_is_transfer_error() {
    assert_eq!(relay_outcome(true, false), Err(BalancerError::Transfer));
}

#[test]
fn clean_end_is_success() {
    assert_eq!(relay_outcome(true, true), Ok(()));
}
