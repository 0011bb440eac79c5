use swap_core::error::SwapError;
use swap_core::registry::SwapRegistry;
use swap_core::types::Role;

#[test]
fn second_driver_for_same_swap_is_rejected() {
    let mut reg = SwapRegistry::new();
    assert_eq!(reg.start_driver(5, Role::Maker), Ok(()));
    assert!(reg.is_active(5));
    // the at-most-one invariant: always DuplicateSwap, no state change
    assert_eq!(reg.start_driver(5, Role::Maker), Err(SwapError::DuplicateSwap));
    assert_eq!(reg.start_driver(5, Role::Taker), Err(SwapError::DuplicateSwap));
    assert_eq!(reg.active_count(), 1);
}

#[test]
fn distinct_swaps_run_side_by_side() {
    let mut reg = SwapRegistry::new();
    assert_eq!(reg.start_driver(1, Role::Maker), Ok(()));
    assert_eq!(reg.start_driver(2, Role::Taker), Ok(()));
    assert_eq!(reg.active_count(), 2);
    assert!(reg.is_active(1));
    assert!(reg.is_active(2));
    assert!(!reg.is_active(3));
}

#[test]
fn finishing_releases_the_identifier() {
    let mut reg = SwapRegistry::new();
    assert_eq!(reg.start_driver(5, Role::Maker), Ok(()));
    assert_eq!(reg.finish_driver(5), Ok(()));
    assert!(!reg.is_active(5));
    assert_eq!(reg.finish_driver(5), Err(SwapError::UnknownSwap));
    // the identifier can host a driver again once released
    assert_eq!(reg.start_driver(5, Role::Maker), Ok(()));
    assert!(reg.is_active(5));
}

#[test]
fn shutdown_requests_cancellation_from_every_driver() {
    let mut reg = SwapRegistry::new();
    assert_eq!(reg.start_driver(1, Role::Maker), Ok(()));
    assert_eq!(reg.start_driver(2, Role::Taker), Ok(()));
    assert_eq!(reg.cancel_state(1), Some(false));
    assert_eq!(reg.cancel_state(2), Some(false));
    reg.request_shutdown();
    // no driver is removed; each sees its flag between steps
    assert_eq!(reg.active_count(), 2);
    assert_eq!(reg.cancel_state(1), Some(true));
    assert_eq!(reg.cancel_state(2), Some(true));
    assert_eq!(reg.cancel_state(3), None);
}
