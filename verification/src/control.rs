//! What the driver asks of the register-interface service behind the command channel.

use vstd::prelude::*;

verus! {

/// A 16-bit device setting that the command channel can write or read back.
#[derive(Clone, Copy, Debug, PartialEq, Eq, Structural)]
pub enum Setting {
    GpioMode,
    VideoOutputFormat,
    VideoOutputSource,
    VideoOutputConstant,
    TelemetryMode,
    AgcEnable,
}

/// A flag of the device's status register.
#[derive(Clone, Copy, Debug, PartialEq, Eq, Structural)]
pub enum StatusFlag {
    Boot,
    Interface,
}

/// The register-interface service: it carries out one register transaction per call
/// and answers with what the device reported, or with the error of its transport.
///
/// Each call is described by a relation between the service before the call, the
/// service after it and the reply. An implementation that states its relations has
/// them proved of its methods, and the driver promises its callers exactly what they
/// say. Left as they stand here, they allow every reply.
pub trait RegisterInterface: Sized {
    /// The result code that the device reports after a transaction.
    type Status;

    /// The failure of the service's own transport.
    type Error;

    /// Writing `value` to `setting` may leave the service as `after` and answer `reply`.
    open spec fn writes(
        &self,
        after: &Self,
        setting: Setting,
        value: u16,
        reply: Result<Self::Status, Self::Error>,
    ) -> bool {
        true
    }

    /// Reading `setting` may leave the service as `after` and answer `reply`.
    open spec fn reads(
        &self,
        after: &Self,
        setting: Setting,
        reply: Result<(u16, Self::Status), Self::Error>,
    ) -> bool {
        true
    }

    /// Writing the phase delay may leave the service as `after` and answer `reply`.
    open spec fn writes_phase_delay(
        &self,
        after: &Self,
        value: i16,
        reply: Result<(), Self::Error>,
    ) -> bool {
        true
    }

    /// Reading the phase delay may leave the service as `after` and answer `reply`.
    open spec fn reads_phase_delay(
        &self,
        after: &Self,
        reply: Result<(i16, Self::Status), Self::Error>,
    ) -> bool {
        true
    }

    /// Asking for the status of the last command may leave the service as `after` and
    /// answer `reply`.
    open spec fn reads_status_code(
        &self,
        after: &Self,
        reply: Result<Self::Status, Self::Error>,
    ) -> bool {
        true
    }

    /// Reading `flag` may leave the service as `after` and answer `reply`.
    open spec fn reads_flag(
        &self,
        after: &Self,
        flag: StatusFlag,
        reply: Result<bool, Self::Error>,
    ) -> bool {
        true
    }

    /// Writes `value` to `setting` and returns the device's status code.
    fn write(&mut self, setting: Setting, value: u16) -> (reply: Result<
        Self::Status,
        Self::Error,
    >)
        ensures
            old(self).writes(final(self), setting, value, reply),
    ;

    /// Reads `setting` and returns its value with the device's status code.
    fn read(&mut self, setting: Setting) -> (reply: Result<(u16, Self::Status), Self::Error>)
        ensures
            old(self).reads(final(self), setting, reply),
    ;

    /// Writes the phase delay.
    fn set_phase_delay(&mut self, value: i16) -> (reply: Result<(), Self::Error>)
        ensures
            old(self).writes_phase_delay(final(self), value, reply),
    ;

    /// Reads the phase delay and returns it with the device's status code.
    fn get_phase_delay(&mut self) -> (reply: Result<(i16, Self::Status), Self::Error>)
        ensures
            old(self).reads_phase_delay(final(self), reply),
    ;

    /// Returns the status code of the last command.
    fn get_status_code(&mut self) -> (reply: Result<Self::Status, Self::Error>)
        ensures
            old(self).reads_status_code(final(self), reply),
    ;

    /// Reads `flag`.
    fn read_flag(&mut self, flag: StatusFlag) -> (reply: Result<bool, Self::Error>)
        ensures
            old(self).reads_flag(final(self), flag, reply),
    ;
}

} // verus!
