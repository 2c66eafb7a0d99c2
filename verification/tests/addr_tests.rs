use tapplet_host::addr::{loopback_addr, u16_to_dec};

#[test]
fn formats_a_typical_port() {
    assert_eq!(loopback_addr(18734), "127.0.0.1:18734");
}

#[test]
fn formats_the_sentinel_port() {
    assert_eq!(loopback_addr(0), "127.0.0.1:0");
}

#[test]
fn formats_the_largest_port() {
    assert_eq!(loopback_addr(65535), "127.0.0.1:65535");
}

#[test]
fn decimal_digits_match_display() {
    let samples: [u16; 8] = [0, 1, 9, 10, 99, 100, 18000, 65535];
    for p in samples.iter() {
        assert_eq!(u16_to_dec(*p), format!("{}", p));
    }
}
