//! Trigger control: hardware-driven blink and activity patterns.
//!
//! A trigger is bound to a device by writing its name to the `trigger`
//! attribute; the timer and heartbeat triggers take further parameters
//! through their own attributes. This is pure parameter formatting onto
//! the attribute-write interface. A rejected trigger-name write surfaces
//! as an unsupported-trigger error carrying the trigger name.

use vstd::prelude::*;

verus! {

use crate::decimal::{dec_seq, decimal_string};
use crate::devio::DeviceIo;
use crate::errors::Error;
use crate::SysfsLed;
use crate::SysfsRgbLed;

/// Disabling of automatic triggering.
pub trait TriggerNone: Sized {
    /// What disabling triggering did: the relation between the state
    /// before the call, the state after it and the result.
    spec fn none_post(pre: Self, post: Self, r: Result<(), Error>) -> bool;

    /// Disable automatic triggering of the device.
    fn none(&mut self) -> (r: Result<(), Error>)
        ensures
            Self::none_post(*old(self), *final(self), r),
    ;
}

impl<D: DeviceIo> TriggerNone for SysfsLed<D> {
    /// A completed call stores `none` in the `trigger` attribute; a
    /// rejected write leaves the attributes unchanged and is an
    /// unsupported-trigger error naming `none`.
    open spec fn none_post(pre: Self, post: Self, r: Result<(), Error>) -> bool {
        &&& post.dev.id() == pre.dev.id()
        &&& match r {
            Ok(_) => post.dev.attrs() == pre.dev.attrs().insert("trigger"@, "none"@),
            Err(e) => e is UnsupportedTrigger && e->UnsupportedTrigger_0@ == "none"@
                && post.dev.attrs() == pre.dev.attrs(),
        }
    }

    fn none(&mut self) -> (r: Result<(), Error>) {
        match self.dev.write_attribute("trigger", "none") {
            Ok(_) => Ok(()),
            Err(_) => Err(Error::UnsupportedTrigger(String::from_str("none"))),
        }
    }
}

impl<D: DeviceIo> TriggerNone for SysfsRgbLed<D> {
    /// A completed call stores `none` in the `trigger` attribute of all
    /// three channels. A failure stops at the failing channel: the blue
    /// channel is untouched, each earlier channel is either untouched or
    /// set, in order, and the failing channel's error is surfaced.
    open spec fn none_post(pre: Self, post: Self, r: Result<(), Error>) -> bool {
        &&& post.red.dev.id() == pre.red.dev.id()
        &&& post.green.dev.id() == pre.green.dev.id()
        &&& post.blue.dev.id() == pre.blue.dev.id()
        &&& match r {
            Ok(_) => {
                &&& post.red.dev.attrs() == pre.red.dev.attrs().insert("trigger"@, "none"@)
                &&& post.green.dev.attrs() == pre.green.dev.attrs().insert("trigger"@, "none"@)
                &&& post.blue.dev.attrs() == pre.blue.dev.attrs().insert("trigger"@, "none"@)
            },
            Err(e) => {
                &&& e is UnsupportedTrigger && e->UnsupportedTrigger_0@ == "none"@
                &&& post.blue.dev.attrs() == pre.blue.dev.attrs()
                &&& {
                    ||| (post.red.dev.attrs() == pre.red.dev.attrs() && post.green.dev.attrs()
                        == pre.green.dev.attrs())
                    ||| (post.red.dev.attrs() == pre.red.dev.attrs().insert("trigger"@, "none"@)
                        && post.green.dev.attrs() == pre.green.dev.attrs())
                    ||| (post.red.dev.attrs() == pre.red.dev.attrs().insert("trigger"@, "none"@)
                        && post.green.dev.attrs() == pre.green.dev.attrs().insert(
                        "trigger"@,
                        "none"@,
                    ))
                }
            },
        }
    }

    fn none(&mut self) -> (r: Result<(), Error>) {
        match self.red.none() {
            Ok(_) => {},
            Err(e) => {
                return Err(e);
            },
        };
        match self.green.none() {
            Ok(_) => {},
            Err(e) => {
                return Err(e);
            },
        };
        match self.blue.none() {
            Ok(_) => {},
            Err(e) => {
                return Err(e);
            },
        };
        Ok(())
    }
}

/// A periodic on/off timer pattern.
pub trait TriggerTimer: Sized {
    /// What enabling the timer did: the relation between the state before
    /// the call, the state after it, the two delays and the result.
    spec fn timer_post(
        pre: Self,
        post: Self,
        delay_on: u64,
        delay_off: u64,
        r: Result<(), Error>,
    ) -> bool;

    /// Enable the timer trigger with the two delays in milliseconds.
    fn timer(&mut self, delay_on: u64, delay_off: u64) -> (r: Result<(), Error>)
        ensures
            Self::timer_post(*old(self), *final(self), delay_on, delay_off, r),
    ;
}

impl<D: DeviceIo> TriggerTimer for SysfsLed<D> {
    /// A completed call stores `timer` in the `trigger` attribute and the
    /// decimal delays in `delay_on` and `delay_off`. The writes are
    /// sequential and stop at the first failure: a rejected trigger write
    /// is an unsupported-trigger error with nothing changed, and a failed
    /// delay write is the write's own error with the earlier writes
    /// applied.
    open spec fn timer_post(
        pre: Self,
        post: Self,
        delay_on: u64,
        delay_off: u64,
        r: Result<(), Error>,
    ) -> bool {
        &&& post.dev.id() == pre.dev.id()
        &&& match r {
            Ok(_) => post.dev.attrs() == pre.dev.attrs().insert("trigger"@, "timer"@).insert(
                "delay_on"@,
                dec_seq(delay_on as nat),
            ).insert("delay_off"@, dec_seq(delay_off as nat)),
            Err(e) => {
                ||| (e is UnsupportedTrigger && e->UnsupportedTrigger_0@ == "timer"@
                    && post.dev.attrs() == pre.dev.attrs())
                ||| (e is Io && post.dev.attrs() == pre.dev.attrs().insert("trigger"@, "timer"@))
                ||| (e is Io && post.dev.attrs() == pre.dev.attrs().insert(
                    "trigger"@,
                    "timer"@,
                ).insert("delay_on"@, dec_seq(delay_on as nat)))
            },
        }
    }

    fn timer(&mut self, delay_on: u64, delay_off: u64) -> (r: Result<(), Error>) {
        match self.dev.write_attribute("trigger", "timer") {
            Ok(_) => {},
            Err(_) => {
                return Err(Error::UnsupportedTrigger(String::from_str("timer")));
            },
        };
        let on_text = decimal_string(delay_on);
        match self.dev.write_attribute("delay_on", on_text.as_str()) {
            Ok(_) => {},
            Err(e) => {
                return Err(e);
            },
        };
        let off_text = decimal_string(delay_off);
        match self.dev.write_attribute("delay_off", off_text.as_str()) {
            Ok(_) => {},
            Err(e) => {
                return Err(e);
            },
        };
        Ok(())
    }
}

/// A heartbeat blink pattern.
pub trait TriggerHeartbeat: Sized {
    /// What enabling the heartbeat did: the relation between the state
    /// before the call, the state after it, the invert flag and the
    /// result.
    spec fn heartbeat_post(pre: Self, post: Self, invert: bool, r: Result<(), Error>) -> bool;

    /// Enable the heartbeat trigger, inverted if asked.
    fn heartbeat(&mut self, invert: bool) -> (r: Result<(), Error>)
        ensures
            Self::heartbeat_post(*old(self), *final(self), invert, r),
    ;
}

impl<D: DeviceIo> TriggerHeartbeat for SysfsLed<D> {
    /// A completed call stores `heartbeat` in the `trigger` attribute and
    /// the flag, `1` or `0`, in `invert`. The writes are sequential and
    /// stop at the first failure: a rejected trigger write is an
    /// unsupported-trigger error with nothing changed, and a failed invert
    /// write is the write's own error with the trigger applied.
    open spec fn heartbeat_post(pre: Self, post: Self, invert: bool, r: Result<(), Error>) -> bool {
        &&& post.dev.id() == pre.dev.id()
        &&& match r {
            Ok(_) => post.dev.attrs() == pre.dev.attrs().insert("trigger"@, "heartbeat"@).insert(
                "invert"@,
                if invert {
                    "1"@
                } else {
                    "0"@
                },
            ),
            Err(e) => {
                ||| (e is UnsupportedTrigger && e->UnsupportedTrigger_0@ == "heartbeat"@
                    && post.dev.attrs() == pre.dev.attrs())
                ||| (e is Io && post.dev.attrs() == pre.dev.attrs().insert(
                    "trigger"@,
                    "heartbeat"@,
                ))
            },
        }
    }

    fn heartbeat(&mut self, invert: bool) -> (r: Result<(), Error>) {
        match self.dev.write_attribute("trigger", "heartbeat") {
            Ok(_) => {},
            Err(_) => {
                return Err(Error::UnsupportedTrigger(String::from_str("heartbeat")));
            },
        };
        let flag: &str = if invert {
            "1"
        } else {
            "0"
        };
        match self.dev.write_attribute("invert", flag) {
            Ok(_) => Ok(()),
            Err(e) => Err(e),
        }
    }
}

/// Binding to a CPU-activity source.
pub trait TriggerCpu: Sized {
    /// What binding to a CPU did: the relation between the state before
    /// the call, the state after it, the CPU index and the result.
    spec fn cpu_post(pre: Self, post: Self, cpu: u32, r: Result<(), Error>) -> bool;

    /// Bind the device to the activity of the CPU with the given index.
    fn cpu(&mut self, cpu: u32) -> (r: Result<(), Error>)
        ensures
            Self::cpu_post(*old(self), *final(self), cpu, r),
    ;
}

impl<D: DeviceIo> TriggerCpu for SysfsLed<D> {
    /// A completed call stores `cpu` followed by the decimal index, with
    /// no leading zeros, in the `trigger` attribute; a rejected write
    /// leaves the attributes unchanged and is an unsupported-trigger error
    /// naming that trigger.
    open spec fn cpu_post(pre: Self, post: Self, cpu: u32, r: Result<(), Error>) -> bool {
        &&& post.dev.id() == pre.dev.id()
        &&& match r {
            Ok(_) => post.dev.attrs() == pre.dev.attrs().insert(
                "trigger"@,
                "cpu"@ + dec_seq(cpu as nat),
            ),
            Err(e) => e is UnsupportedTrigger && e->UnsupportedTrigger_0@ == "cpu"@ + dec_seq(
                cpu as nat,
            ) && post.dev.attrs() == pre.dev.attrs(),
        }
    }

    fn cpu(&mut self, cpu: u32) -> (r: Result<(), Error>) {
        let name = String::from_str("cpu").concat(decimal_string(cpu as u64).as_str());
        match self.dev.write_attribute("trigger", name.as_str()) {
            Ok(_) => Ok(()),
            Err(_) => Err(Error::UnsupportedTrigger(name)),
        }
    }
}

} // verus!
