use sysfs_led::colors::Color;
use sysfs_led::devio::{DeviceIo, MemDevice};
use sysfs_led::errors::Error;
use sysfs_led::triggers::{TriggerCpu, TriggerHeartbeat, TriggerNone, TriggerTimer};
use sysfs_led::{Brightness, Led, RgbLed, SysfsLed, SysfsRgbLed};

fn led_device(name: &str, brightness: &str, max_brightness: &str, trigger: &str) -> MemDevice {
    let mut dev = MemDevice::new(name);
    dev.set_attribute("brightness", brightness);
    dev.set_attribute("max_brightness", max_brightness);
    dev.set_attribute("trigger", trigger);
    dev
}

fn attribute(led: &SysfsLed<MemDevice>, name: &str) -> String {
    led.dev.read_attribute(name).expect(name)
}

#[test]
fn test_set_brightness() {
    let dev = led_device("sysfs_led_test", "0", "128", "[none]");
    let mut led = SysfsLed::new(dev).expect("create sysfs led");
    let vectors = vec![
        (Brightness::Full, "128"),
        (Brightness::Percent(50), "64"),
        (Brightness::Percent(150), "128"),
        (Brightness::Absolute(0), "0"),
        (Brightness::Absolute(72), "72"),
        (Brightness::Absolute(129), "128"),
        (Brightness::Off, "0"),
    ];
    for (brightness, expected) in vectors {
        led.set_brightness(brightness)
            .unwrap_or_else(|_| panic!("setting brightness={:?}", brightness));
        assert_eq!(expected, attribute(&led, "brightness"));
    }
}

#[test]
fn test_missing_trigger_attribute_is_invalid_device_path() {
    let mut dev = MemDevice::new("led0");
    dev.set_attribute("brightness", "0");
    dev.set_attribute("max_brightness", "128");
    match SysfsLed::new(dev) {
        Err(Error::InvalidDevicePath(path)) => assert_eq!("led0", path),
        other => panic!("expected invalid device path, got ok={:?}", other.is_ok()),
    }
}

#[test]
fn test_missing_brightness_attribute_is_invalid_device_path() {
    let mut dev = MemDevice::new("led1");
    dev.set_attribute("max_brightness", "128");
    dev.set_attribute("trigger", "[none]");
    assert!(matches!(SysfsLed::new(dev), Err(Error::InvalidDevicePath(_))));
}

#[test]
fn test_max_brightness_reads_attribute() {
    let led = SysfsLed::new(led_device("led0", "0", "128", "[none]")).unwrap();
    assert_eq!(128, led.max_brightness().unwrap());
}

#[test]
fn test_max_brightness_parse_failure() {
    let led = SysfsLed::new(led_device("led0", "0", "not a number", "[none]")).unwrap();
    assert!(matches!(led.max_brightness(), Err(Error::Parse(_))));
    assert!(matches!(
        led.brightness(),
        Ok(Brightness::Absolute(0))
    ));
}

#[test]
fn test_brightness_reads_absolute_value() {
    let led = SysfsLed::new(led_device("led0", "72", "128", "[none]")).unwrap();
    assert_eq!(Brightness::Absolute(72), led.brightness().unwrap());
}

#[test]
fn test_set_brightness_io_failure_leaves_attribute() {
    let mut dev = led_device("led0", "7", "128", "[none]");
    dev.lock_attribute("brightness");
    let mut led = SysfsLed::new(dev).expect("create sysfs led");
    assert!(matches!(led.set_brightness(Brightness::Full), Err(Error::Io(_))));
    assert_eq!("7", attribute(&led, "brightness"));
}

#[test]
fn test_trigger_none() {
    let mut led = SysfsLed::new(led_device("led0", "0", "128", "[none]")).unwrap();
    led.none().expect("disable trigger");
    assert_eq!("none", attribute(&led, "trigger"));
}

#[test]
fn test_trigger_none_unsupported() {
    let mut dev = led_device("led0", "0", "128", "[none]");
    dev.lock_attribute("trigger");
    let mut led = SysfsLed::new(dev).unwrap();
    match led.none() {
        Err(Error::UnsupportedTrigger(name)) => assert_eq!("none", name),
        other => panic!("expected unsupported trigger, got ok={:?}", other.is_ok()),
    }
    assert_eq!("[none]", attribute(&led, "trigger"));
}

#[test]
fn test_trigger_timer() {
    let mut dev = led_device("led0", "0", "128", "[none]");
    dev.set_attribute("delay_on", "0");
    dev.set_attribute("delay_off", "0");
    let mut led = SysfsLed::new(dev).unwrap();
    led.timer(500, 250).expect("enable timer");
    assert_eq!("timer", attribute(&led, "trigger"));
    assert_eq!("500", attribute(&led, "delay_on"));
    assert_eq!("250", attribute(&led, "delay_off"));
}

#[test]
fn test_trigger_timer_stops_at_failed_delay() {
    let mut dev = led_device("led0", "0", "128", "[none]");
    dev.set_attribute("delay_on", "11");
    dev.set_attribute("delay_off", "22");
    dev.lock_attribute("delay_on");
    let mut led = SysfsLed::new(dev).unwrap();
    assert!(matches!(led.timer(500, 250), Err(Error::Io(_))));
    assert_eq!("timer", attribute(&led, "trigger"));
    assert_eq!("11", attribute(&led, "delay_on"));
    assert_eq!("22", attribute(&led, "delay_off"));
}

#[test]
fn test_trigger_heartbeat() {
    let mut dev = led_device("led0", "0", "128", "[none]");
    dev.set_attribute("invert", "0");
    let mut led = SysfsLed::new(dev).unwrap();
    led.heartbeat(true).expect("enable heartbeat");
    assert_eq!("heartbeat", attribute(&led, "trigger"));
    assert_eq!("1", attribute(&led, "invert"));
    led.heartbeat(false).expect("enable heartbeat");
    assert_eq!("0", attribute(&led, "invert"));
}

#[test]
fn test_trigger_cpu() {
    let mut led = SysfsLed::new(led_device("led0", "0", "128", "[none]")).unwrap();
    led.cpu(3).expect("bind cpu trigger");
    assert_eq!("cpu3", attribute(&led, "trigger"));
    led.cpu(0).expect("bind cpu trigger");
    assert_eq!("cpu0", attribute(&led, "trigger"));
    led.cpu(12).expect("bind cpu trigger");
    assert_eq!("cpu12", attribute(&led, "trigger"));
}

#[test]
fn test_rgb_new_validates_each_device_in_order() {
    let red = led_device("red", "0", "255", "[none]");
    let mut green = MemDevice::new("green");
    green.set_attribute("brightness", "0");
    green.set_attribute("max_brightness", "255");
    let blue = led_device("blue", "0", "255", "[none]");
    match SysfsRgbLed::new(red, green, blue) {
        Err(Error::InvalidDevicePath(path)) => assert_eq!("green", path),
        other => panic!("expected invalid device path, got ok={:?}", other.is_ok()),
    }
}

#[test]
fn test_rgb_from_leds_never_fails() {
    let red = SysfsLed::new(led_device("red", "0", "255", "[none]")).unwrap();
    let green = SysfsLed::new(led_device("green", "0", "255", "[none]")).unwrap();
    let blue = SysfsLed::new(led_device("blue", "0", "255", "[none]")).unwrap();
    assert!(SysfsRgbLed::from_leds(red, green, blue).is_ok());
}

#[test]
fn test_rgb_set_color_writes_each_channel() {
    let red = led_device("red", "0", "255", "[none]");
    let green = led_device("green", "0", "255", "[none]");
    let blue = led_device("blue", "0", "255", "[none]");
    let mut rgb = SysfsRgbLed::new(red, green, blue).expect("create rgb led");
    rgb.set_color(Color::from_rgb(10, 20, 30)).expect("set color");
    assert_eq!("10", attribute(&rgb.red, "brightness"));
    assert_eq!("20", attribute(&rgb.green, "brightness"));
    assert_eq!("30", attribute(&rgb.blue, "brightness"));
}

#[test]
fn test_rgb_set_color_clamps_to_channel_maximum() {
    let red = led_device("red", "0", "255", "[none]");
    let green = led_device("green", "0", "128", "[none]");
    let blue = led_device("blue", "0", "255", "[none]");
    let mut rgb = SysfsRgbLed::new(red, green, blue).expect("create rgb led");
    rgb.set_color(Color::from_rgb(200, 200, 200)).expect("set color");
    assert_eq!("200", attribute(&rgb.red, "brightness"));
    assert_eq!("128", attribute(&rgb.green, "brightness"));
    assert_eq!("200", attribute(&rgb.blue, "brightness"));
}

#[test]
fn test_rgb_set_color_stops_at_failing_channel() {
    let red = led_device("red", "1", "255", "[none]");
    let mut green = led_device("green", "2", "255", "[none]");
    green.lock_attribute("brightness");
    let blue = led_device("blue", "3", "255", "[none]");
    let mut rgb = SysfsRgbLed::new(red, green, blue).expect("create rgb led");
    assert!(matches!(rgb.set_color(Color::from_rgb(10, 20, 30)), Err(Error::Io(_))));
    assert_eq!("10", attribute(&rgb.red, "brightness"));
    assert_eq!("2", attribute(&rgb.green, "brightness"));
    assert_eq!("3", attribute(&rgb.blue, "brightness"));
}

#[test]
fn test_rgb_trigger_none_applies_to_all_channels() {
    let red = led_device("red", "0", "255", "[none]");
    let green = led_device("green", "0", "255", "[none]");
    let blue = led_device("blue", "0", "255", "[none]");
    let mut rgb = SysfsRgbLed::new(red, green, blue).expect("create rgb led");
    rgb.none().expect("disable triggers");
    assert_eq!("none", attribute(&rgb.red, "trigger"));
    assert_eq!("none", attribute(&rgb.green, "trigger"));
    assert_eq!("none", attribute(&rgb.blue, "trigger"));
}

#[test]
fn test_rgb_trigger_none_stops_at_second_channel_failure() {
    let red = led_device("red", "0", "255", "[none]");
    let mut green = led_device("green", "0", "255", "[none]");
    green.lock_attribute("trigger");
    let blue = led_device("blue", "0", "255", "[none]");
    let mut rgb = SysfsRgbLed::new(red, green, blue).expect("create rgb led");
    match rgb.none() {
        Err(Error::UnsupportedTrigger(name)) => assert_eq!("none", name),
        other => panic!("expected unsupported trigger, got ok={:?}", other.is_ok()),
    }
    assert_eq!("none", attribute(&rgb.red, "trigger"));
    assert_eq!("[none]", attribute(&rgb.green, "trigger"));
    assert_eq!("[none]", attribute(&rgb.blue, "trigger"));
}

#[test]
fn test_rgb_color_read_is_stubbed_black() {
    let red = led_device("red", "11", "255", "[none]");
    let green = led_device("green", "22", "255", "[none]");
    let blue = led_device("blue", "33", "255", "[none]");
    let rgb = SysfsRgbLed::new(red, green, blue).expect("create rgb led");
    assert_eq!(Color::from_rgb(0, 0, 0), rgb.color().expect("read color"));
}

#[test]
fn test_rgb_brightness_is_not_modeled() {
    let red = led_device("red", "11", "255", "[none]");
    let green = led_device("green", "22", "255", "[none]");
    let blue = led_device("blue", "33", "255", "[none]");
    let mut rgb = SysfsRgbLed::new(red, green, blue).expect("create rgb led");
    assert_eq!(Brightness::Off, rgb.brightness().unwrap());
    rgb.set_brightness(Brightness::Full).expect("no-op set");
    assert_eq!("11", attribute(&rgb.red, "brightness"));
    assert_eq!("22", attribute(&rgb.green, "brightness"));
    assert_eq!("33", attribute(&rgb.blue, "brightness"));
}
