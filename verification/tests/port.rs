use sidecar_supervisor::port::port_or_default;
use sidecar_supervisor::port::PortAllocator;
use sidecar_supervisor::port::DEFAULT_PORT;
use sidecar_supervisor::port::LOWEST_ASSIGNABLE_PORT;

#[test]
fn default_port_is_8000() {
    assert_eq!(DEFAULT_PORT, 8000);
    assert_eq!(LOWEST_ASSIGNABLE_PORT, 1024);
}

#[test]
fn failed_allocation_falls_back_to_default() {
    assert_eq!(port_or_default(None), 8000);
}

#[test]
fn usable_candidate_is_kept() {
    assert_eq!(port_or_default(Some(15000)), 15000);
    assert_eq!(port_or_default(Some(24999)), 24999);
    assert_eq!(port_or_default(Some(1024)), 1024);
    assert_eq!(port_or_default(Some(65535)), 65535);
    assert_eq!(port_or_default(Some(8000)), 8000);
}

#[test]
fn zero_and_reserved_candidates_fall_back_to_default() {
    assert_eq!(port_or_default(Some(0)), 8000);
    assert_eq!(port_or_default(Some(1)), 8000);
    assert_eq!(port_or_default(Some(80)), 8000);
    assert_eq!(port_or_default(Some(1023)), 8000);
}

#[test]
fn settled_port_is_never_below_the_range() {
    for candidate in 0..=u16::MAX {
        let port = port_or_default(Some(candidate));
        assert!(port >= 1024);
        assert!(port == candidate || port == 8000);
    }
}

#[test]
fn picked_port_is_in_range() {
    for _ in 0..5 {
        let port = PortAllocator::pick();
        assert_ne!(port, 0);
        assert!(port >= 1024);
    }
}
