use sysfs_led::colors::{black, cyan, magenta, pure_blue, pure_green, pure_red, white, yellow,
    Color};

#[test]
fn test_hsv_to_rgb() {
    assert_eq!(Color::from_rgb(0, 0, 0), Color::from_hsv(0, 0, 0));
    assert_eq!(Color::from_rgb(255, 255, 255), Color::from_hsv(0, 0, 255));
    assert_eq!(Color::from_rgb(255, 0, 0), Color::from_hsv(0, 255, 255));
    assert_eq!(Color::from_rgb(0, 255, 0), Color::from_hsv(86, 255, 255));
    assert_eq!(Color::from_rgb(0, 0, 255), Color::from_hsv(172, 255, 255));
    assert_eq!(Color::from_rgb(254, 255, 0), Color::from_hsv(43, 255, 255));
    assert_eq!(Color::from_rgb(0, 254, 255), Color::from_hsv(129, 255, 255));
    assert_eq!(Color::from_rgb(255, 0, 254), Color::from_hsv(215, 255, 255));
    assert_eq!(Color::from_rgb(192, 192, 192), Color::from_hsv(0, 0, 192));
    assert_eq!(Color::from_rgb(128, 128, 128), Color::from_hsv(0, 0, 128));
    assert_eq!(Color::from_rgb(128, 0, 0), Color::from_hsv(0, 255, 128));
    assert_eq!(Color::from_rgb(127, 128, 0), Color::from_hsv(43, 255, 128));
    assert_eq!(Color::from_rgb(0, 128, 0), Color::from_hsv(86, 255, 128));
    assert_eq!(Color::from_rgb(128, 0, 127), Color::from_hsv(215, 255, 128));
    assert_eq!(Color::from_rgb(0, 128, 126), Color::from_hsv(128, 255, 128));
    assert_eq!(Color::from_rgb(0, 0, 128), Color::from_hsv(172, 255, 128));
}

#[test]
fn test_hsl_to_rgb() {
    assert_eq!(Color::from_rgb(0, 0, 0), Color::from_hsl(0, 0, 0));
    assert_eq!(Color::from_rgb(255, 255, 255), Color::from_hsl(0, 0, 255));
    assert_eq!(Color::from_rgb(255, 255, 255), Color::from_hsl(255, 0, 255));
    assert_eq!(Color::from_rgb(255, 255, 255), Color::from_hsl(255, 255, 255));
    assert_eq!(Color::from_rgb(127, 127, 127), Color::from_hsl(0, 0, 127));
    assert_eq!(Color::from_rgb(255, 0, 0), Color::from_hsl(0, 255, 127));
    assert_eq!(Color::from_rgb(255, 125, 0), Color::from_hsl(21, 255, 127));
    assert_eq!(Color::from_rgb(254, 255, 0), Color::from_hsl(43, 255, 127));
    assert_eq!(Color::from_rgb(128, 255, 0), Color::from_hsl(64, 255, 127));
    assert_eq!(Color::from_rgb(0, 255, 251), Color::from_hsl(128, 255, 127));
    assert_eq!(Color::from_rgb(125, 0, 255), Color::from_hsl(193, 255, 127));
    assert_eq!(Color::from_rgb(190, 126, 64), Color::from_hsl(21, 127, 127));
    assert_eq!(Color::from_rgb(189, 190, 64), Color::from_hsl(43, 127, 127));
    assert_eq!(Color::from_rgb(127, 190, 64), Color::from_hsl(64, 127, 127));
    assert_eq!(Color::from_rgb(64, 190, 188), Color::from_hsl(128, 127, 127));
    assert_eq!(Color::from_rgb(126, 64, 190), Color::from_hsl(193, 127, 127));
}

#[test]
fn test_greyscale_for_every_hue() {
    for hue in 0..=255u8 {
        assert_eq!(Color::from_rgb(77, 77, 77), Color::from_hsv(hue, 0, 77));
        assert_eq!(Color::from_rgb(77, 77, 77), Color::from_hsl(hue, 0, 77));
        assert_eq!(Color::from_rgb(0, 0, 0), Color::from_hsv(hue, 0, 0));
        assert_eq!(Color::from_rgb(255, 255, 255), Color::from_hsl(hue, 0, 255));
    }
}

#[test]
fn test_channel_accessors() {
    let c = Color::from_rgb(12, 34, 56);
    assert_eq!(12, c.red());
    assert_eq!(34, c.green());
    assert_eq!(56, c.blue());
}

#[test]
fn test_named_colors() {
    assert_eq!(Color::from_rgb(0, 0, 0), black());
    assert_eq!(Color::from_rgb(255, 255, 255), white());
    assert_eq!(Color::from_rgb(255, 0, 0), pure_red());
    assert_eq!(Color::from_rgb(0, 255, 0), pure_green());
    assert_eq!(Color::from_rgb(0, 0, 255), pure_blue());
    assert_eq!(Color::from_rgb(255, 255, 0), yellow());
    assert_eq!(Color::from_rgb(0, 255, 255), cyan());
    assert_eq!(Color::from_rgb(255, 0, 255), magenta());
}

#[test]
fn test_hsl_saturates_large_chroma() {
    assert_eq!(Color::from_rgb(255, 0, 0), Color::from_hsl(0, 255, 0));
    assert_eq!(Color::from_rgb(255, 0, 0), Color::from_hsl(0, 255, 64));
    assert_eq!(Color::from_rgb(255, 0, 29), Color::from_hsl(255, 255, 0));
}
