use bevy_openxr::cycle::SwapchainCycle;
use bevy_openxr::error::XrError;

#[test]
fn fresh_cycle_has_nothing_pending() {
    let cycle = SwapchainCycle::new();
    assert_eq!(cycle.pending(), 0);
    assert!(!cycle.is_waited());
    assert!(!cycle.may_wait());
    assert!(!cycle.may_release());
}

#[test]
fn wait_without_acquire_is_refused() {
    let mut cycle = SwapchainCycle::new();
    assert_eq!(cycle.image_waited(), Err(XrError::CallOrderInvalid));
    assert_eq!(cycle.pending(), 0);
    assert!(!cycle.is_waited());
}

#[test]
fn release_without_acquire_is_refused() {
    let mut cycle = SwapchainCycle::new();
    assert_eq!(cycle.image_released(), Err(XrError::CallOrderInvalid));
    assert_eq!(cycle.pending(), 0);
}

#[test]
fn release_without_wait_is_refused() {
    let mut cycle = SwapchainCycle::new();
    cycle.image_acquired();
    assert_eq!(cycle.image_released(), Err(XrError::CallOrderInvalid));
    assert_eq!(cycle.pending(), 1);
}

#[test]
fn second_wait_without_release_is_refused() {
    let mut cycle = SwapchainCycle::new();
    cycle.image_acquired();
    cycle.image_acquired();
    assert_eq!(cycle.image_waited(), Ok(()));
    assert_eq!(cycle.image_waited(), Err(XrError::CallOrderInvalid));
    assert_eq!(cycle.pending(), 2);
    assert!(cycle.is_waited());
}

#[test]
fn full_cycle_returns_to_the_start() {
    let mut cycle = SwapchainCycle::new();
    cycle.image_acquired();
    assert_eq!(cycle.pending(), 1);
    assert!(cycle.may_wait());
    assert_eq!(cycle.image_waited(), Ok(()));
    assert!(cycle.may_release());
    assert!(!cycle.may_wait());
    assert_eq!(cycle.image_released(), Ok(()));
    assert_eq!(cycle.pending(), 0);
    assert!(!cycle.is_waited());
    assert!(!cycle.may_wait());
    assert!(!cycle.may_release());
}

#[test]
fn acquire_is_in_turn_again_after_release() {
    let mut cycle = SwapchainCycle::new();
    for _ in 0..3 {
        cycle.image_acquired();
        assert_eq!(cycle.image_waited(), Ok(()));
        assert_eq!(cycle.image_released(), Ok(()));
    }
    assert_eq!(cycle.pending(), 0);
    assert_eq!(cycle.image_waited(), Err(XrError::CallOrderInvalid));
}

#[test]
fn two_images_acquired_are_released_one_by_one() {
    let mut cycle = SwapchainCycle::new();
    cycle.image_acquired();
    cycle.image_acquired();
    assert_eq!(cycle.image_waited(), Ok(()));
    assert_eq!(cycle.image_released(), Ok(()));
    assert_eq!(cycle.pending(), 1);
    assert_eq!(cycle.image_waited(), Ok(()));
    assert_eq!(cycle.image_released(), Ok(()));
    assert_eq!(cycle.pending(), 0);
    assert_eq!(cycle.image_released(), Err(XrError::CallOrderInvalid));
}

#[test]
fn acquired_index_is_handed_on_and_counted() {
    let mut cycle = SwapchainCycle::new();
    assert_eq!(cycle.acquire_answered(Ok(2)), Ok(2));
    assert_eq!(cycle.pending(), 1);
    assert_eq!(cycle.acquire_answered(Ok(0)), Ok(0));
    assert_eq!(cycle.pending(), 2);
}

#[test]
fn failed_acquire_hands_the_status_on_and_counts_nothing() {
    let mut cycle = SwapchainCycle::new();
    assert_eq!(
        cycle.acquire_answered(Err(openxr::sys::Result::ERROR_CALL_ORDER_INVALID)),
        Err(XrError::OpenXrError(openxr::sys::Result::ERROR_CALL_ORDER_INVALID))
    );
    assert_eq!(cycle.pending(), 0);
}

#[test]
fn wait_answer_in_turn() {
    let mut cycle = SwapchainCycle::new();
    assert_eq!(cycle.acquire_answered(Ok(1)), Ok(1));
    assert_eq!(
        cycle.wait_answered(Err(openxr::sys::Result::ERROR_SESSION_LOST)),
        Err(XrError::OpenXrError(openxr::sys::Result::ERROR_SESSION_LOST))
    );
    assert!(!cycle.is_waited());
    assert_eq!(cycle.wait_answered(Ok(())), Ok(()));
    assert!(cycle.is_waited());
    assert_eq!(cycle.pending(), 1);
}

#[test]
fn wait_answer_out_of_turn_is_not_looked_at() {
    let mut cycle = SwapchainCycle::new();
    assert_eq!(cycle.wait_answered(Ok(())), Err(XrError::CallOrderInvalid));
    assert_eq!(
        cycle.wait_answered(Err(openxr::sys::Result::ERROR_SESSION_LOST)),
        Err(XrError::CallOrderInvalid)
    );
    assert!(!cycle.is_waited());
    assert_eq!(cycle.pending(), 0);
}

#[test]
fn release_answer_in_turn() {
    let mut cycle = SwapchainCycle::new();
    assert_eq!(cycle.acquire_answered(Ok(1)), Ok(1));
    assert_eq!(cycle.wait_answered(Ok(())), Ok(()));
    assert_eq!(
        cycle.release_answered(Err(openxr::sys::Result::ERROR_RUNTIME_FAILURE)),
        Err(XrError::OpenXrError(openxr::sys::Result::ERROR_RUNTIME_FAILURE))
    );
    assert!(cycle.is_waited());
    assert_eq!(cycle.pending(), 1);
    assert_eq!(cycle.release_answered(Ok(())), Ok(()));
    assert!(!cycle.is_waited());
    assert_eq!(cycle.pending(), 0);
}

#[test]
fn release_answer_out_of_turn_is_not_looked_at() {
    let mut cycle = SwapchainCycle::new();
    assert_eq!(cycle.acquire_answered(Ok(1)), Ok(1));
    assert_eq!(cycle.release_answered(Ok(())), Err(XrError::CallOrderInvalid));
    assert_eq!(cycle.pending(), 1);
}
