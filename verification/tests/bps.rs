use chicken::actions::bps;
use chicken::error::ChickenError;

#[test]
fn test_bps() {
    assert_eq!(bps(999, 10).unwrap(), 0);
    assert_eq!(bps(100, 100).unwrap(), 1);
    assert_eq!(bps(100, 500).unwrap(), 5);
    assert_eq!(bps(100, 1000).unwrap(), 10);
    assert_eq!(bps(100, 0).unwrap(), 0);
}

#[test]
fn bps_is_exact_at_the_bounds_of_the_rate() {
    assert_eq!(bps(u64::MAX, 0), Ok(0));
    assert_eq!(bps(u64::MAX, 10_000), Ok(u64::MAX));
    assert_eq!(bps(123_456_789, 10_000), Ok(123_456_789));
}

#[test]
fn bps_rounds_down() {
    assert_eq!(bps(9_999, 1), Ok(0));
    assert_eq!(bps(10_000, 1), Ok(1));
    assert_eq!(bps(19_999, 1), Ok(1));
    assert_eq!(bps(1_000_000_000_000_000, 10), Ok(1_000_000_000_000));
}

#[test]
fn bps_fails_where_the_share_leaves_64_bits() {
    assert_eq!(bps(u64::MAX, 10_001), Err(ChickenError::InvalidNumericConversion));
    assert_eq!(bps(u64::MAX, u16::MAX), Err(ChickenError::InvalidNumericConversion));
    assert_eq!(bps(1 << 62, 20_000), Ok(1 << 63));
}
