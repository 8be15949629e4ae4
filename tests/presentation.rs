use app_surface::{AcquireAction, AcquireState, Attempt, FrameAcquisition};

#[test]
fn valid_surface_gives_frame_without_reconfiguration() {
    let mut f = FrameAcquisition::new();
    assert_eq!(f.record(Attempt::Acquired), AcquireAction::UseFrame);
    assert_eq!(f.state, AcquireState::Ready);
    assert_eq!(f.attempts, 1);
    assert_eq!(f.reconfigurations, 0);
}

#[test]
fn lost_surface_is_reconfigured_once_and_retried() {
    let mut f = FrameAcquisition::new();
    assert_eq!(f.record(Attempt::Lost), AcquireAction::ReconfigureAndRetry);
    assert_eq!(f.state, AcquireState::Retrying);
    assert_eq!(f.reconfigurations, 1);
    assert_eq!(f.record(Attempt::Acquired), AcquireAction::UseFrame);
    assert_eq!(f.state, AcquireState::Ready);
    assert_eq!(f.attempts, 2);
    assert_eq!(f.reconfigurations, 1);
}

#[test]
fn second_failure_is_fatal() {
    let mut f = FrameAcquisition::new();
    assert_eq!(f.record(Attempt::Lost), AcquireAction::ReconfigureAndRetry);
    assert_eq!(f.record(Attempt::Lost), AcquireAction::Abort);
    assert_eq!(f.state, AcquireState::Failed);
    assert_eq!(f.attempts, 2);
    assert_eq!(f.reconfigurations, 1);
}
