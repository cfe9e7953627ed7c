//! Control of LED hardware exposed through a device-attribute interface.
//!
//! The crate centers on the [`Led`] and [`RgbLed`] traits and their
//! device-backed implementations [`SysfsLed`] and [`SysfsRgbLed`], which
//! translate the pure [`Brightness`] and [`colors::Color`] models into
//! reads and writes of named device attributes.

use vstd::prelude::*;

pub mod colors;
pub mod decimal;
pub mod devio;
pub mod errors;
pub mod triggers;

verus! {

use crate::colors::Color;
use crate::decimal::{all_digits, dec_seq, dec_val, decimal_string, parse_u32};
use crate::devio::DeviceIo;
use crate::errors::Error;

/// Brightness of an LED.
///
/// Output brightness of an LED, always resolved against some maximum
/// brightness reported by the hardware. Usually this maximum is 255, but
/// prefer the `Percent` variant over `Absolute` in case a different
/// maximum is in effect.
#[derive(Clone, Copy, Debug, PartialEq, Eq, Structural, Hash)]
pub enum Brightness {
    Full,
    Off,
    Percent(u32),
    Absolute(u32),
}

/// The smaller of two mathematical integers.
pub open spec fn min_int(a: int, b: int) -> int {
    if a <= b {
        a
    } else {
        b
    }
}

/// An integer clamped to the largest `u32` value.
pub open spec fn cap_u32(x: int) -> int {
    if x > 0xffff_ffff {
        0xffff_ffff
    } else {
        x
    }
}

/// The absolute hardware value that a brightness resolves to against a
/// hardware maximum: `Full` is the maximum, `Off` is zero, `Percent(p)`
/// scales the maximum by `min(p, 100)` percent with saturating
/// multiplication, and `Absolute(a)` is clamped to the maximum.
pub open spec fn spec_to_absolute(b: Brightness, max_brightness: u32) -> int {
    match b {
        Brightness::Full => max_brightness as int,
        Brightness::Off => 0,
        Brightness::Percent(p) => cap_u32(max_brightness as int * min_int(p as int, 100)) / 100,
        Brightness::Absolute(a) => min_int(max_brightness as int, a as int),
    }
}

/// The percentage that a brightness resolves to against a hardware
/// maximum: `Full` is the maximum value itself (a preserved asymmetry with
/// `spec_to_absolute`, not 100), `Off` is zero, `Percent(p)` is clamped to
/// 100, and `Absolute(a)` is the clamped value's share of the maximum.
/// Meaningful only for a nonzero maximum.
pub open spec fn spec_to_percent(b: Brightness, max_brightness: u32) -> int {
    match b {
        Brightness::Full => max_brightness as int,
        Brightness::Off => 0,
        Brightness::Percent(p) => min_int(p as int, 100),
        Brightness::Absolute(a) => cap_u32(min_int(a as int, max_brightness as int) * 100)
            / max_brightness as int,
    }
}

/// Multiplication of two `u32` values, clamped to the largest `u32`.
fn saturating_mul_u32(a: u32, b: u32) -> (r: u32)
    ensures
        r as int == cap_u32(a as int * b as int),
{
    proof {
        vstd::arithmetic::mul::lemma_mul_upper_bound(
            a as int,
            0xffff_ffff,
            b as int,
            0xffff_ffff,
        );
    }
    let wide: u64 = (a as u64) * (b as u64);
    if wide > 0xffff_ffff {
        0xffff_ffff
    } else {
        wide as u32
    }
}

impl Brightness {
    /// Resolve this brightness to an absolute value on the hardware scale
    /// given by `max_brightness`.
    pub fn to_absolute(&self, max_brightness: u32) -> (r: u32)
        ensures
            r as int == spec_to_absolute(*self, max_brightness),
    {
        match *self {
            Brightness::Full => max_brightness,
            Brightness::Off => 0,
            Brightness::Percent(p) => {
                let clamped: u32 = if p < 100 {
                    p
                } else {
                    100
                };
                saturating_mul_u32(max_brightness, clamped) / 100
            },
            Brightness::Absolute(a) => {
                if max_brightness < a {
                    max_brightness
                } else {
                    a
                }
            },
        }
    }

    /// Resolve this brightness to a percentage of the hardware scale given
    /// by `max_brightness`. A zero maximum is a caller error and yields
    /// `None` for every variant, though only an `Absolute` value needs the
    /// division; every other input yields the resolved percentage.
    pub fn to_percent(&self, max_brightness: u32) -> (r: Option<u32>)
        ensures
            r is Some <==> max_brightness > 0,
            r matches Some(v) ==> v as int == spec_to_percent(*self, max_brightness),
    {
        if max_brightness == 0 {
            return None;
        }
        match *self {
            Brightness::Full => Some(max_brightness),
            Brightness::Off => Some(0),
            Brightness::Percent(p) => Some(
                if p < 100 {
                    p
                } else {
                    100
                },
            ),
            Brightness::Absolute(a) => {
                let clamped: u32 = if a < max_brightness {
                    a
                } else {
                    max_brightness
                };
                Some(saturating_mul_u32(clamped, 100) / max_brightness)
            },
        }
    }
}

/// For every hardware maximum, `Off` resolves to zero, `Full` resolves to
/// the maximum, an over-range percentage resolves to the maximum wherever
/// scaling by 100 stays within `u32`, and an absolute request resolves to
/// the smaller of the request and the maximum.
pub proof fn lemma_to_absolute_resolution(max_brightness: u32, p: u32, a: u32)
    ensures
        spec_to_absolute(Brightness::Off, max_brightness) == 0,
        spec_to_absolute(Brightness::Full, max_brightness) == max_brightness,
        p >= 100 && max_brightness <= 0xffff_ffffu32 / 100 ==> spec_to_absolute(
            Brightness::Percent(p),
            max_brightness,
        ) == max_brightness,
        spec_to_absolute(Brightness::Absolute(a), max_brightness) == min_int(
            max_brightness as int,
            a as int,
        ),
{
    if p >= 100 && max_brightness <= 0xffff_ffffu32 / 100 {
        assert(min_int(p as int, 100) == 100);
        vstd::arithmetic::mul::lemma_mul_upper_bound(
            max_brightness as int,
            0xffff_ffffint / 100,
            100,
            100,
        );
        assert(cap_u32(max_brightness as int * 100) == max_brightness as int * 100);
        vstd::arithmetic::div_mod::lemma_div_multiples_vanish(max_brightness as int, 100);
    }
}

/// Whether a device exposes the three attributes every LED device must
/// have: `brightness`, `max_brightness` and `trigger`.
pub open spec fn device_ready<D: DeviceIo>(dev: &D) -> bool {
    &&& dev.attrs().contains_key("brightness"@)
    &&& dev.attrs().contains_key("max_brightness"@)
    &&& dev.attrs().contains_key("trigger"@)
}

/// Whether the named attribute holds the decimal text of a number that
/// fits in `u32`.
pub open spec fn numeric_attr(attrs: Map<Seq<char>, Seq<char>>, name: Seq<char>) -> bool {
    &&& attrs.contains_key(name)
    &&& attrs[name].len() > 0
    &&& all_digits(attrs[name])
    &&& dec_val(attrs[name]) <= 0xffff_ffff
}

/// The attribute map after one channel of a composite device is set to a
/// color component: its `brightness` attribute holds the component clamped
/// to the channel's own maximum.
pub open spec fn channel_set(attrs: Map<Seq<char>, Seq<char>>, level: u8) -> Map<
    Seq<char>,
    Seq<char>,
> {
    attrs.insert(
        "brightness"@,
        dec_seq(min_int(dec_val(attrs["max_brightness"@]), level as int) as nat),
    )
}

/// Basic functionality of an LED: to be read and set at some level of
/// brightness.
///
/// Each implementation states what its operations do through the two
/// relation functions, so callers generic over `Led` still get exact
/// contracts.
pub trait Led: Sized {
    /// What a completed brightness read reports: the relation between the
    /// device state and the result.
    spec fn read_post(&self, r: Result<Brightness, Error>) -> bool;

    /// What a brightness write did: the relation between the state before
    /// the call, the state after it, the requested brightness and the
    /// result.
    spec fn set_post(pre: Self, post: Self, brightness: Brightness, r: Result<(), Error>) -> bool;

    /// Get the current brightness of the LED.
    fn brightness(&self) -> (r: Result<Brightness, Error>)
        ensures
            self.read_post(r),
    ;

    /// Set the brightness of the LED.
    fn set_brightness(&mut self, brightness: Brightness) -> (r: Result<(), Error>)
        ensures
            Self::set_post(*old(self), *final(self), brightness, r),
    ;
}

/// Access to an LED driven through the device attributes of a single
/// hardware channel.
pub struct SysfsLed<D: DeviceIo> {
    /// The underlying attribute device.
    pub dev: D,
}

impl<D: DeviceIo> SysfsLed<D> {
    /// A constructed LED handle exposes the three required attributes.
    pub open spec fn wf(&self) -> bool {
        device_ready(&self.dev)
    }

    /// Create a new `SysfsLed` over a device, validating at construction
    /// time that the device exposes the three required attributes; fails
    /// with an invalid-device-path error naming the device otherwise.
    pub fn new(dev: D) -> (r: Result<SysfsLed<D>, Error>)
        ensures
            r is Ok <==> device_ready(&dev),
            r matches Ok(led) ==> led == (SysfsLed { dev }) && led.wf(),
            r matches Err(e) ==> e is InvalidDevicePath && e->InvalidDevicePath_0@ == dev.id(),
    {
        if !dev.has_attribute("brightness") {
            return Err(Error::InvalidDevicePath(dev.id_string()));
        }
        if !dev.has_attribute("max_brightness") {
            return Err(Error::InvalidDevicePath(dev.id_string()));
        }
        if !dev.has_attribute("trigger") {
            return Err(Error::InvalidDevicePath(dev.id_string()));
        }
        Ok(SysfsLed { dev })
    }

    /// The raw maximum brightness of the LED device: the parsed value of
    /// its `max_brightness` attribute. An unreadable attribute is an I/O
    /// error; one that does not hold a non-negative integer fitting `u32`
    /// is a parse error.
    pub fn max_brightness(&self) -> (r: Result<u32, Error>)
        ensures
            r matches Ok(m) ==> numeric_attr(self.dev.attrs(), "max_brightness"@) && m as int
                == dec_val(self.dev.attrs()["max_brightness"@]),
            r matches Err(e) ==> e is Io || (e is Parse && self.dev.attrs().contains_key(
                "max_brightness"@,
            ) && !numeric_attr(self.dev.attrs(), "max_brightness"@)),
    {
        let text = match self.dev.read_attribute("max_brightness") {
            Ok(t) => t,
            Err(e) => {
                return Err(e);
            },
        };
        parse_u32(text.as_str())
    }
}

impl<D: DeviceIo> Led for SysfsLed<D> {
    /// A completed read reports the parsed `brightness` attribute as an
    /// absolute value; a failure is an I/O error, or a parse error where
    /// the attribute is present but not numeric.
    open spec fn read_post(&self, r: Result<Brightness, Error>) -> bool {
        match r {
            Ok(b) => numeric_attr(self.dev.attrs(), "brightness"@) && b == Brightness::Absolute(
                dec_val(self.dev.attrs()["brightness"@]) as u32,
            ),
            Err(e) => e is Io || (e is Parse && self.dev.attrs().contains_key("brightness"@)
                && !numeric_attr(self.dev.attrs(), "brightness"@)),
        }
    }

    /// A completed write stores the decimal text of the brightness
    /// resolved against the device's current maximum; a failure leaves the
    /// attributes unchanged and is an I/O error, or a parse error where
    /// the maximum is present but not numeric.
    open spec fn set_post(
        pre: Self,
        post: Self,
        brightness: Brightness,
        r: Result<(), Error>,
    ) -> bool {
        &&& post.dev.id() == pre.dev.id()
        &&& match r {
            Ok(_) => {
                &&& numeric_attr(pre.dev.attrs(), "max_brightness"@)
                &&& post.dev.attrs() == pre.dev.attrs().insert(
                    "brightness"@,
                    dec_seq(
                        spec_to_absolute(
                            brightness,
                            dec_val(pre.dev.attrs()["max_brightness"@]) as u32,
                        ) as nat,
                    ),
                )
            },
            Err(e) => {
                &&& post.dev.attrs() == pre.dev.attrs()
                &&& (e is Io || (e is Parse && pre.dev.attrs().contains_key("max_brightness"@)
                    && !numeric_attr(pre.dev.attrs(), "max_brightness"@)))
            },
        }
    }

    fn brightness(&self) -> (r: Result<Brightness, Error>) {
        let text = match self.dev.read_attribute("brightness") {
            Ok(t) => t,
            Err(e) => {
                return Err(e);
            },
        };
        match parse_u32(text.as_str()) {
            Ok(v) => Ok(Brightness::Absolute(v)),
            Err(e) => Err(e),
        }
    }

    fn set_brightness(&mut self, brightness: Brightness) -> (r: Result<(), Error>) {
        let max_brightness = match self.max_brightness() {
            Ok(m) => m,
            Err(e) => {
                return Err(e);
            },
        };
        let value = brightness.to_absolute(max_brightness);
        let text = decimal_string(value as u64);
        match self.dev.write_attribute("brightness", text.as_str()) {
            Ok(_) => Ok(()),
            Err(e) => Err(e),
        }
    }
}

/// Basic functionality of an LED with red, green, and blue component
/// colors, stacked from three single-color LEDs.
pub trait RgbLed: Led {
    /// What a completed color read reports.
    spec fn color_read_post(&self, r: Result<Color, Error>) -> bool;

    /// What a color write did: the relation between the state before the
    /// call, the state after it, the requested color and the result.
    spec fn color_write_post(pre: Self, post: Self, color: Color, r: Result<(), Error>) -> bool;

    /// Get the color of the RGB LED.
    fn color(&self) -> (r: Result<Color, Error>)
        ensures
            self.color_read_post(r),
    ;

    /// Set the color of the RGB LED.
    fn set_color(&mut self, color: Color) -> (r: Result<(), Error>)
        ensures
            Self::color_write_post(*old(self), *final(self), color, r),
    ;
}

/// Access to an RGB LED driven as three separate single-channel LED
/// devices.
pub struct SysfsRgbLed<D: DeviceIo> {
    /// The red channel.
    pub red: SysfsLed<D>,
    /// The green channel.
    pub green: SysfsLed<D>,
    /// The blue channel.
    pub blue: SysfsLed<D>,
}

impl<D: DeviceIo> SysfsRgbLed<D> {
    /// Create a new `SysfsRgbLed` over three devices, validating each in
    /// turn as `SysfsLed::new` does, failing fast on the first device that
    /// lacks a required attribute.
    pub fn new(red: D, green: D, blue: D) -> (r: Result<SysfsRgbLed<D>, Error>)
        ensures
            r is Ok <==> device_ready(&red) && device_ready(&green) && device_ready(&blue),
            r matches Ok(l) ==> l.red.dev == red && l.green.dev == green && l.blue.dev == blue,
            !device_ready(&red) ==> (r matches Err(e) && e is InvalidDevicePath
                && e->InvalidDevicePath_0@ == red.id()),
            device_ready(&red) && !device_ready(&green) ==> (r matches Err(e)
                && e is InvalidDevicePath && e->InvalidDevicePath_0@ == green.id()),
            device_ready(&red) && device_ready(&green) && !device_ready(&blue) ==> (r matches Err(
                e,
            ) && e is InvalidDevicePath && e->InvalidDevicePath_0@ == blue.id()),
    {
        let red_led = match SysfsLed::new(red) {
            Ok(l) => l,
            Err(e) => {
                return Err(e);
            },
        };
        let green_led = match SysfsLed::new(green) {
            Ok(l) => l,
            Err(e) => {
                return Err(e);
            },
        };
        let blue_led = match SysfsLed::new(blue) {
            Ok(l) => l,
            Err(e) => {
                return Err(e);
            },
        };
        Self::from_leds(red_led, green_led, blue_led)
    }

    /// Create a new `SysfsRgbLed` from existing `SysfsLed` objects; never
    /// fails.
    pub fn from_leds(red: SysfsLed<D>, green: SysfsLed<D>, blue: SysfsLed<D>) -> (r: Result<
        SysfsRgbLed<D>,
        Error,
    >)
        ensures
            r is Ok,
            r matches Ok(l) ==> l == (SysfsRgbLed { red, green, blue }),
    {
        Ok(SysfsRgbLed { red, green, blue })
    }
}

impl<D: DeviceIo> Led for SysfsRgbLed<D> {
    /// Brightness is deliberately not modeled for the composite device: a
    /// read always reports `Off`.
    open spec fn read_post(&self, r: Result<Brightness, Error>) -> bool {
        r == Result::<Brightness, Error>::Ok(Brightness::Off)
    }

    /// Brightness is deliberately not modeled for the composite device: a
    /// write changes nothing and succeeds.
    open spec fn set_post(
        pre: Self,
        post: Self,
        brightness: Brightness,
        r: Result<(), Error>,
    ) -> bool {
        post == pre && r is Ok
    }

    fn brightness(&self) -> (r: Result<Brightness, Error>) {
        Ok(Brightness::Off)
    }

    fn set_brightness(&mut self, _brightness: Brightness) -> (r: Result<(), Error>) {
        Ok(())
    }
}

impl<D: DeviceIo> RgbLed for SysfsRgbLed<D> {
    /// Reading the color back is unimplemented in this design: a completed
    /// read probes all three channels and then reports black regardless of
    /// the hardware state. A parse failure means some channel's
    /// `brightness` attribute is present but not numeric.
    open spec fn color_read_post(&self, r: Result<Color, Error>) -> bool {
        match r {
            Ok(c) => {
                &&& c == Color(0, 0, 0)
                &&& numeric_attr(self.red.dev.attrs(), "brightness"@)
                &&& numeric_attr(self.green.dev.attrs(), "brightness"@)
                &&& numeric_attr(self.blue.dev.attrs(), "brightness"@)
            },
            Err(e) => {
                &&& (e is Io || e is Parse)
                &&& (e is Parse ==> {
                    ||| (self.red.dev.attrs().contains_key("brightness"@) && !numeric_attr(
                        self.red.dev.attrs(),
                        "brightness"@,
                    ))
                    ||| (self.green.dev.attrs().contains_key("brightness"@) && !numeric_attr(
                        self.green.dev.attrs(),
                        "brightness"@,
                    ))
                    ||| (self.blue.dev.attrs().contains_key("brightness"@) && !numeric_attr(
                        self.blue.dev.attrs(),
                        "brightness"@,
                    ))
                })
            },
        }
    }

    /// A completed write sets each channel's `brightness` to the matching
    /// color component clamped to that channel's own maximum. A failure
    /// stops at the failing channel: the blue channel is untouched, and
    /// each earlier channel is either untouched or fully set, in order. A
    /// parse failure can only come from the maximum reads, which all
    /// precede the writes: it leaves every channel untouched and some
    /// channel's maximum is present but not numeric.
    open spec fn color_write_post(
        pre: Self,
        post: Self,
        color: Color,
        r: Result<(), Error>,
    ) -> bool {
        &&& post.red.dev.id() == pre.red.dev.id()
        &&& post.green.dev.id() == pre.green.dev.id()
        &&& post.blue.dev.id() == pre.blue.dev.id()
        &&& match r {
            Ok(_) => {
                &&& numeric_attr(pre.red.dev.attrs(), "max_brightness"@)
                &&& numeric_attr(pre.green.dev.attrs(), "max_brightness"@)
                &&& numeric_attr(pre.blue.dev.attrs(), "max_brightness"@)
                &&& post.red.dev.attrs() == channel_set(pre.red.dev.attrs(), color.0)
                &&& post.green.dev.attrs() == channel_set(pre.green.dev.attrs(), color.1)
                &&& post.blue.dev.attrs() == channel_set(pre.blue.dev.attrs(), color.2)
            },
            Err(e) => {
                &&& (e is Io || e is Parse)
                &&& post.blue.dev.attrs() == pre.blue.dev.attrs()
                &&& {
                    ||| (post.red.dev.attrs() == pre.red.dev.attrs() && post.green.dev.attrs()
                        == pre.green.dev.attrs())
                    ||| (post.red.dev.attrs() == channel_set(pre.red.dev.attrs(), color.0)
                        && post.green.dev.attrs() == pre.green.dev.attrs())
                    ||| (post.red.dev.attrs() == channel_set(pre.red.dev.attrs(), color.0)
                        && post.green.dev.attrs() == channel_set(pre.green.dev.attrs(), color.1))
                }
                &&& (e is Parse ==> {
                    &&& post.red.dev.attrs() == pre.red.dev.attrs()
                    &&& post.green.dev.attrs() == pre.green.dev.attrs()
                    &&& {
                        ||| (pre.red.dev.attrs().contains_key("max_brightness"@) && !numeric_attr(
                            pre.red.dev.attrs(),
                            "max_brightness"@,
                        ))
                        ||| (pre.green.dev.attrs().contains_key("max_brightness"@)
                            && !numeric_attr(pre.green.dev.attrs(), "max_brightness"@))
                        ||| (pre.blue.dev.attrs().contains_key("max_brightness"@) && !numeric_attr(
                            pre.blue.dev.attrs(),
                            "max_brightness"@,
                        ))
                    }
                })
            },
        }
    }

    fn color(&self) -> (r: Result<Color, Error>) {
        let _red = match self.red.brightness() {
            Ok(b) => b,
            Err(e) => {
                return Err(e);
            },
        };
        let _green = match self.green.brightness() {
            Ok(b) => b,
            Err(e) => {
                return Err(e);
            },
        };
        let _blue = match self.blue.brightness() {
            Ok(b) => b,
            Err(e) => {
                return Err(e);
            },
        };
        Ok(Color::from_rgb(0, 0, 0))
    }

    fn set_color(&mut self, color: Color) -> (r: Result<(), Error>) {
        // Each channel's own maximum is read up front, and the components
        // are then applied on the hardware scale directly: no rescaling of
        // a component to its channel's maximum. Channels with differing
        // maxima render an incorrect color; preserved as an open design
        // question rather than silently corrected.
        let _red_max = match self.red.max_brightness() {
            Ok(m) => m,
            Err(e) => {
                return Err(e);
            },
        };
        let _green_max = match self.green.max_brightness() {
            Ok(m) => m,
            Err(e) => {
                return Err(e);
            },
        };
        let _blue_max = match self.blue.max_brightness() {
            Ok(m) => m,
            Err(e) => {
                return Err(e);
            },
        };
        match self.red.set_brightness(Brightness::Absolute(color.red() as u32)) {
            Ok(_) => {},
            Err(e) => {
                return Err(e);
            },
        };
        match self.green.set_brightness(Brightness::Absolute(color.green() as u32)) {
            Ok(_) => {},
            Err(e) => {
                return Err(e);
            },
        };
        match self.blue.set_brightness(Brightness::Absolute(color.blue() as u32)) {
            Ok(_) => {},
            Err(e) => {
                return Err(e);
            },
        };
        Ok(())
    }
}

} // verus!
