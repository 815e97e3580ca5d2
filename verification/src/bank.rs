//! An in-memory register file that answers as the camera's command channel does, for
//! running the driver without a camera.

use crate::control::{RegisterInterface, Setting, StatusFlag};
use vstd::prelude::*;

verus! {

/// The transport error of a [`RegisterBank`] whose link is down.
#[derive(Clone, Copy, Debug, PartialEq, Eq, Structural)]
pub struct LinkDown;

/// A register file held in memory. While its link is up it stores what is written,
/// hands back what it stores and closes every transaction with the status code it was
/// given to report. While its link is down it answers every call with [`LinkDown`]
/// and changes nothing.
#[derive(Clone, Copy, Debug, PartialEq, Eq, Structural)]
pub struct RegisterBank {
    pub phase_delay: i16,
    pub gpio_mode: u16,
    pub video_output_format: u16,
    pub video_output_source: u16,
    pub video_output_constant: u16,
    pub telemetry_mode: u16,
    pub agc_enable: u16,
    pub boot_status: bool,
    pub interface_status: bool,
    /// The status code that closes every transaction.
    pub status: i16,
    /// Whether the transport to the bank works.
    pub link_up: bool,
}

impl RegisterBank {
    /// The value that the bank stores for `setting`.
    pub open spec fn value(&self, setting: Setting) -> u16 {
        match setting {
            Setting::GpioMode => self.gpio_mode,
            Setting::VideoOutputFormat => self.video_output_format,
            Setting::VideoOutputSource => self.video_output_source,
            Setting::VideoOutputConstant => self.video_output_constant,
            Setting::TelemetryMode => self.telemetry_mode,
            Setting::AgcEnable => self.agc_enable,
        }
    }

    /// The bank with `value` stored for `setting` and all else as in `self`.
    pub open spec fn with_value(&self, setting: Setting, value: u16) -> Self {
        match setting {
            Setting::GpioMode => RegisterBank { gpio_mode: value, ..*self },
            Setting::VideoOutputFormat => RegisterBank { video_output_format: value, ..*self },
            Setting::VideoOutputSource => RegisterBank { video_output_source: value, ..*self },
            Setting::VideoOutputConstant => RegisterBank { video_output_constant: value, ..*self },
            Setting::TelemetryMode => RegisterBank { telemetry_mode: value, ..*self },
            Setting::AgcEnable => RegisterBank { agc_enable: value, ..*self },
        }
    }

    /// The state of `flag`.
    pub open spec fn flag(&self, flag: StatusFlag) -> bool {
        match flag {
            StatusFlag::Boot => self.boot_status,
            StatusFlag::Interface => self.interface_status,
        }
    }

    /// A bank as a camera is after start-up: every setting 0, both flags set, status
    /// code 0, link up.
    pub fn new() -> (bank: Self)
        ensures
            bank == (RegisterBank {
                phase_delay: 0,
                gpio_mode: 0,
                video_output_format: 0,
                video_output_source: 0,
                video_output_constant: 0,
                telemetry_mode: 0,
                agc_enable: 0,
                boot_status: true,
                interface_status: true,
                status: 0,
                link_up: true,
            }),
    {
        RegisterBank {
            phase_delay: 0,
            gpio_mode: 0,
            video_output_format: 0,
            video_output_source: 0,
            video_output_constant: 0,
            telemetry_mode: 0,
            agc_enable: 0,
            boot_status: true,
            interface_status: true,
            status: 0,
            link_up: true,
        }
    }
}

impl RegisterInterface for RegisterBank {
    type Status = i16;

    type Error = LinkDown;

    open spec fn writes(
        &self,
        after: &Self,
        setting: Setting,
        value: u16,
        reply: Result<i16, LinkDown>,
    ) -> bool {
        if self.link_up {
            *after == self.with_value(setting, value) && reply == Ok::<i16, LinkDown>(self.status)
        } else {
            *after == *self && reply is Err
        }
    }

    open spec fn reads(
        &self,
        after: &Self,
        setting: Setting,
        reply: Result<(u16, i16), LinkDown>,
    ) -> bool {
        *after == *self && if self.link_up {
            reply == Ok::<(u16, i16), LinkDown>((self.value(setting), self.status))
        } else {
            reply is Err
        }
    }

    open spec fn writes_phase_delay(
        &self,
        after: &Self,
        value: i16,
        reply: Result<(), LinkDown>,
    ) -> bool {
        if self.link_up {
            *after == (RegisterBank { phase_delay: value, ..*self }) && reply is Ok
        } else {
            *after == *self && reply is Err
        }
    }

    open spec fn reads_phase_delay(
        &self,
        after: &Self,
        reply: Result<(i16, i16), LinkDown>,
    ) -> bool {
        *after == *self && if self.link_up {
            reply == Ok::<(i16, i16), LinkDown>((self.phase_delay, self.status))
        } else {
            reply is Err
        }
    }

    open spec fn reads_status_code(&self, after: &Self, reply: Result<i16, LinkDown>) -> bool {
        *after == *self && if self.link_up {
            reply == Ok::<i16, LinkDown>(self.status)
        } else {
            reply is Err
        }
    }

    open spec fn reads_flag(
        &self,
        after: &Self,
        flag: StatusFlag,
        reply: Result<bool, LinkDown>,
    ) -> bool {
        *after == *self && if self.link_up {
            reply == Ok::<bool, LinkDown>(self.flag(flag))
        } else {
            reply is Err
        }
    }

    fn write(&mut self, setting: Setting, value: u16) -> (reply: Result<i16, LinkDown>) {
        if !self.link_up {
            return Err(LinkDown);
        }
        match setting {
            Setting::GpioMode => {
                self.gpio_mode = value;
            },
            Setting::VideoOutputFormat => {
                self.video_output_format = value;
            },
            Setting::VideoOutputSource => {
                self.video_output_source = value;
            },
            Setting::VideoOutputConstant => {
                self.video_output_constant = value;
            },
            Setting::TelemetryMode => {
                self.telemetry_mode = value;
            },
            Setting::AgcEnable => {
                self.agc_enable = value;
            },
        }
        Ok(self.status)
    }

    fn read(&mut self, setting: Setting) -> (reply: Result<(u16, i16), LinkDown>) {
        if !self.link_up {
            return Err(LinkDown);
        }
        let value: u16 = match setting {
            Setting::GpioMode => self.gpio_mode,
            Setting::VideoOutputFormat => self.video_output_format,
            Setting::VideoOutputSource => self.video_output_source,
            Setting::VideoOutputConstant => self.video_output_constant,
            Setting::TelemetryMode => self.telemetry_mode,
            Setting::AgcEnable => self.agc_enable,
        };
        Ok((value, self.status))
    }

    fn set_phase_delay(&mut self, value: i16) -> (reply: Result<(), LinkDown>) {
        if !self.link_up {
            return Err(LinkDown);
        }
        self.phase_delay = value;
        Ok(())
    }

    fn get_phase_delay(&mut self) -> (reply: Result<(i16, i16), LinkDown>) {
        if !self.link_up {
            return Err(LinkDown);
        }
        Ok((self.phase_delay, self.status))
    }

    fn get_status_code(&mut self) -> (reply: Result<i16, LinkDown>) {
        if !self.link_up {
            return Err(LinkDown);
        }
        Ok(self.status)
    }

    fn read_flag(&mut self, flag: StatusFlag) -> (reply: Result<bool, LinkDown>) {
        if !self.link_up {
            return Err(LinkDown);
        }
        let state = match flag {
            StatusFlag::Boot => self.boot_status,
            StatusFlag::Interface => self.interface_status,
        };
        Ok(state)
    }
}

} // verus!
