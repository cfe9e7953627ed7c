use sysfs_led::Brightness;

#[test]
fn test_to_absolute_resolution() {
    for max in [0u32, 1, 100, 128, 255, 1000, 42_949_672] {
        assert_eq!(0, Brightness::Off.to_absolute(max));
        assert_eq!(max, Brightness::Full.to_absolute(max));
        assert_eq!(max, Brightness::Percent(150).to_absolute(max));
        assert_eq!(max, Brightness::Percent(100).to_absolute(max));
        for a in [0u32, 1, 72, 129, 4_294_967_295] {
            assert_eq!(a.min(max), Brightness::Absolute(a).to_absolute(max));
        }
    }
}

#[test]
fn test_to_absolute_against_max_128() {
    assert_eq!(64, Brightness::Percent(50).to_absolute(128));
    assert_eq!(128, Brightness::Absolute(129).to_absolute(128));
}

#[test]
fn test_to_absolute_rounds_down() {
    assert_eq!(1, Brightness::Percent(1).to_absolute(128));
    assert_eq!(0, Brightness::Percent(33).to_absolute(1));
    assert_eq!(42, Brightness::Percent(33).to_absolute(128));
}

#[test]
fn test_to_percent() {
    assert_eq!(Some(128), Brightness::Full.to_percent(128));
    assert_eq!(Some(0), Brightness::Off.to_percent(128));
    assert_eq!(Some(50), Brightness::Percent(50).to_percent(128));
    assert_eq!(Some(100), Brightness::Percent(150).to_percent(128));
    assert_eq!(Some(50), Brightness::Absolute(64).to_percent(128));
    assert_eq!(Some(100), Brightness::Absolute(129).to_percent(128));
    assert_eq!(Some(56), Brightness::Absolute(72).to_percent(128));
}

#[test]
fn test_to_percent_zero_max() {
    assert_eq!(None, Brightness::Full.to_percent(0));
    assert_eq!(None, Brightness::Off.to_percent(0));
    assert_eq!(None, Brightness::Percent(50).to_percent(0));
    assert_eq!(None, Brightness::Absolute(7).to_percent(0));
}
