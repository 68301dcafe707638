use netman::activation::{activation_verdict, PollVerdict};
use netman::error::ActivationFailure;

#[test]
fn activated_state_ends_the_polling() {
    assert_eq!(activation_verdict(0, Some(2)), PollVerdict::Activated);
    assert_eq!(activation_verdict(14, Some(2)), PollVerdict::Activated);
}

#[test]
fn deactivating_and_deactivated_are_rejections() {
    assert_eq!(activation_verdict(0, Some(3)), PollVerdict::Failed(ActivationFailure::Rejected));
    assert_eq!(activation_verdict(5, Some(4)), PollVerdict::Failed(ActivationFailure::Rejected));
}

#[test]
fn activating_polls_again_until_the_fifteenth_poll() {
    for before in 0..14 {
        assert_eq!(activation_verdict(before, Some(1)), PollVerdict::Again);
    }
    assert_eq!(activation_verdict(14, Some(1)), PollVerdict::TimedOut);
    assert_eq!(activation_verdict(u32::MAX, Some(1)), PollVerdict::TimedOut);
}

#[test]
fn unknown_states_and_read_errors_mean_the_activation_is_gone() {
    assert_eq!(activation_verdict(0, Some(0)), PollVerdict::Failed(ActivationFailure::Vanished));
    assert_eq!(activation_verdict(0, Some(5)), PollVerdict::Failed(ActivationFailure::Vanished));
    assert_eq!(activation_verdict(3, None), PollVerdict::Failed(ActivationFailure::Vanished));
}
