use co2_dashboard::range::RangeSelector;

#[test]
fn default_window_of_100_readings_trails_60() {
    // A 100-reading series opens on the trailing 60 samples.
    let s = RangeSelector::new(100);
    assert_eq!(s.low, 40);
    assert_eq!(s.high, 99);
    assert_eq!(s.length, 100);
}

#[test]
fn default_window_of_short_series_is_whole_series() {
    // A trailing window larger than the series clamps to the full series.
    let s = RangeSelector::new(10);
    assert_eq!(s.low, 0);
    assert_eq!(s.high, 9);
}

#[test]
fn default_window_of_minimal_series() {
    let s = RangeSelector::new(3);
    assert_eq!(s.low, 0);
    assert_eq!(s.high, 2);
    assert!(s.low + 2 <= s.high);
}

#[test]
fn default_window_of_exactly_60_readings() {
    let s = RangeSelector::new(60);
    assert_eq!(s.low, 0);
    assert_eq!(s.high, 59);
}

#[test]
fn default_window_bounds_hold_for_various_lengths() {
    for n in [3usize, 4, 59, 60, 61, 100, 1000] {
        let s = RangeSelector::new(n);
        assert!(s.low + 2 <= s.high);
        assert!(s.high == n - 1);
        assert!(s.high - s.low + 1 <= n);
    }
}

#[test]
fn reinitialize_recomputes_default_window() {
    let mut s = RangeSelector::new(100);
    s.set_low(5);
    s.reinitialize(10);
    assert_eq!(s.low, 0);
    assert_eq!(s.high, 9);
    assert_eq!(s.length, 10);
}

#[test]
fn set_low_is_idempotent() {
    let mut s = RangeSelector::new(100);
    s.set_low(97);
    let once = (s.low, s.high);
    s.set_low(97);
    assert_eq!((s.low, s.high), once);
}

#[test]
fn set_high_is_idempotent() {
    let mut s = RangeSelector::new(100);
    s.set_high(42);
    let once = (s.low, s.high);
    s.set_high(42);
    assert_eq!((s.low, s.high), once);
}

#[test]
fn set_low_clamps_to_gap_below_high() {
    // setLow(high) must clamp to high - 2, not violate the gap.
    let mut s = RangeSelector::new(100);
    s.set_low(s.high);
    assert_eq!(s.low, 97);
    assert_eq!(s.high, 99);
}

#[test]
fn set_low_at_boundary_then_overshoot() {
    // 100 readings: low=40, high=99; setLow(97) lands exactly on the
    // boundary high - 2, and an overshooting setLow(150) clamps there too.
    let mut s = RangeSelector::new(100);
    s.set_low(97);
    assert_eq!(s.low, 97);
    assert_eq!(s.high, 99);
    s.set_low(150);
    assert_eq!(s.low, 97);
    assert_eq!(s.high, 99);
}

#[test]
fn set_high_clamps_into_range() {
    let mut s = RangeSelector::new(100);
    s.set_high(1000);
    assert_eq!(s.high, 99);
    s.set_high(0);
    assert_eq!(s.high, s.low + 2);
    assert_eq!(s.low, 40);
}

#[test]
fn set_high_never_moves_low_and_vice_versa() {
    let mut s = RangeSelector::new(100);
    s.set_high(50);
    assert_eq!(s.low, 40);
    s.set_low(45);
    assert_eq!(s.high, 50);
}

#[test]
fn gap_invariant_survives_hostile_sequences() {
    // The minimum gap low + 2 <= high holds after every step of an
    // arbitrary slider sequence, however far out of range each request is.
    let mut s = RangeSelector::new(100);
    let ops: [(bool, usize); 12] = [
        (true, usize::MAX),
        (false, 0),
        (true, 99),
        (false, usize::MAX),
        (true, 0),
        (false, 2),
        (true, 98),
        (false, 3),
        (true, 1),
        (false, 1000),
        (true, 50),
        (false, 50),
    ];
    for (is_low, v) in ops {
        if is_low {
            s.set_low(v);
        } else {
            s.set_high(v);
        }
        assert!(s.low + 2 <= s.high, "gap violated at ({is_low}, {v})");
        assert!(s.high < s.length);
    }
}
