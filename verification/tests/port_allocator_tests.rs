use tapplet_host::port_allocator::{choose_port, PortAllocator};

#[test]
fn scan_starts_at_the_first_fallback_port() {
    let alloc = PortAllocator::new();
    assert_eq!(alloc.next_candidate(), Some(18000));
}

#[test]
fn scan_walks_the_fallback_range_in_order() {
    let mut alloc = PortAllocator::new();
    alloc.advance();
    alloc.advance();
    assert_eq!(alloc.next_candidate(), Some(18002));
}

#[test]
fn scan_ends_after_the_last_fallback_port() {
    let mut alloc = PortAllocator::new();
    for _ in 0..999 {
        alloc.advance();
    }
    assert_eq!(alloc.next_candidate(), Some(18999));
    alloc.advance();
    assert_eq!(alloc.next_candidate(), None);
}

#[test]
fn os_assigned_port_wins() {
    assert_eq!(choose_port(Some(49123), Some(18000)), 49123);
    assert_eq!(choose_port(Some(49123), None), 49123);
}

#[test]
fn fallback_port_is_used_when_os_assignment_failed() {
    assert_eq!(choose_port(None, Some(18007)), 18007);
}

#[test]
fn sentinel_when_every_candidate_failed() {
    assert_eq!(choose_port(None, None), 0);
}
