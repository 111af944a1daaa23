use vr_tracker::multicast::is_multicast_v4;

#[test]
fn multicast_block_is_224_through_239() {
    assert!(is_multicast_v4(224));
    assert!(is_multicast_v4(239));
    assert!(is_multicast_v4(230));
}

#[test]
fn unicast_and_broadcast_blocks_are_refused() {
    assert!(!is_multicast_v4(0));
    assert!(!is_multicast_v4(127));
    assert!(!is_multicast_v4(223));
    assert!(!is_multicast_v4(240));
    assert!(!is_multicast_v4(255));
}
