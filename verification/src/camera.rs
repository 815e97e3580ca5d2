//! The camera driver.

use crate::bank::{LinkDown, RegisterBank};
use crate::bus::{failure_of, BusRead, Stream};
use crate::capture::{finish, frame_bytes, frame_start, is_capture, opens_frame, passed_over};
use crate::control::{RegisterInterface, Setting, StatusFlag};
use crate::error::LeptonError;
use crate::packet::{FRAME_SIZE, PACKET_SIZE};
use embedded_hal::spi::{ErrorKind, SpiDevice};
use vstd::prelude::*;

verus! {

/// Camera module
pub struct Lepton<CCI, SPI> {
    cci: CCI,
    stream: Stream<SPI>,
    frame: Box<[u8; FRAME_SIZE]>,
    seek_limit: u64,
}

impl<CCI: RegisterInterface, SPI> Lepton<CCI, SPI> {
    /// The register-interface service that the driver holds.
    pub closed spec fn control(&self) -> CCI {
        self.cci
    }

    /// The streaming bus that the driver holds, with the record of the reads made on it.
    pub closed spec fn stream(&self) -> Stream<SPI> {
        self.stream
    }

    /// The reads made on the streaming bus since the driver was as `before`.
    pub open spec fn reads_since(&self, before: &Self) -> Seq<BusRead> {
        self.stream().reads().skip(before.stream().reads().len() as int)
    }

    /// The frame that the driver keeps.
    pub closed spec fn stored_frame(&self) -> Seq<u8> {
        self.frame@
    }

    /// The number of packets that a capture may read while it looks for the start of a
    /// frame.
    pub closed spec fn spec_seek_limit(&self) -> u64 {
        self.seek_limit
    }

    /// From `self` to `after` nothing but the register-interface service has changed.
    pub open spec fn touches_control_only(&self, after: &Self) -> bool {
        &&& after.stream() == self.stream()
        &&& after.stored_frame() == self.stored_frame()
        &&& after.spec_seek_limit() == self.spec_seek_limit()
    }

    /// One write of `value` to `setting` took the driver from `self` to `after` and
    /// `result` is its reply, with a transport error tagged as the command channel's.
    pub open spec fn setting_written(
        &self,
        after: &Self,
        setting: Setting,
        value: u16,
        result: Result<CCI::Status, LeptonError<CCI::Error, ErrorKind>>,
    ) -> bool {
        &&& self.touches_control_only(after)
        &&& LeptonError::control_cause(result) matches Some(reply)
        &&& self.control().writes(&after.control(), setting, value, reply)
    }

    /// One read of `setting` took the driver from `self` to `after` and `result` is its
    /// reply, with a transport error tagged as the command channel's.
    pub open spec fn setting_read(
        &self,
        after: &Self,
        setting: Setting,
        result: Result<(u16, CCI::Status), LeptonError<CCI::Error, ErrorKind>>,
    ) -> bool {
        &&& self.touches_control_only(after)
        &&& LeptonError::control_cause(result) matches Some(reply)
        &&& self.control().reads(&after.control(), setting, reply)
    }

    /// One read of `flag` took the driver from `self` to `after` and `result` is its
    /// reply, with a transport error tagged as the command channel's.
    pub open spec fn flag_read(
        &self,
        after: &Self,
        flag: StatusFlag,
        result: Result<bool, LeptonError<CCI::Error, ErrorKind>>,
    ) -> bool {
        &&& self.touches_control_only(after)
        &&& LeptonError::control_cause(result) matches Some(reply)
        &&& self.control().reads_flag(&after.control(), flag, reply)
    }

    /// A write of the phase delay took the driver from `self` to `after`. Where the
    /// write went through, the status of the last command was then asked for and
    /// `result` is that reply; where it did not, nothing more was asked and `result` is
    /// the failed write. Either way a transport error is tagged as the command
    /// channel's.
    pub open spec fn phase_delay_written(
        &self,
        after: &Self,
        value: i16,
        result: Result<CCI::Status, LeptonError<CCI::Error, ErrorKind>>,
    ) -> bool {
        &&& self.touches_control_only(after)
        &&& LeptonError::control_cause(result) matches Some(reply)
        &&& {
            ||| reply matches Err(e) && self.control().writes_phase_delay(
                &after.control(),
                value,
                Err(e),
            )
            ||| exists|between: CCI|
                {
                    &&& #[trigger] self.control().writes_phase_delay(&between, value, Ok(()))
                    &&& between.reads_status_code(&after.control(), reply)
                }
        }
    }

    /// One read of the phase delay took the driver from `self` to `after` and `result`
    /// is its reply, with a transport error tagged as the command channel's.
    pub open spec fn phase_delay_read(
        &self,
        after: &Self,
        result: Result<(i16, CCI::Status), LeptonError<CCI::Error, ErrorKind>>,
    ) -> bool {
        &&& self.touches_control_only(after)
        &&& LeptonError::control_cause(result) matches Some(reply)
        &&& self.control().reads_phase_delay(&after.control(), reply)
    }

    /// Writes the phase delay and returns the status code that the device then reports.
    /// If the write itself fails, the status is not asked for.
    pub fn set_phase_delay(&mut self, phase_delay: i16) -> (result: Result<
        CCI::Status,
        LeptonError<CCI::Error, ErrorKind>,
    >)
        ensures
            old(self).phase_delay_written(final(self), phase_delay, result),
    {
        let written = self.cci.set_phase_delay(phase_delay);
        if let Err(e) = written {
            return Err(LeptonError::I2c(e));
        }
        let ghost between = self.cci;
        let reply = self.cci.get_status_code();
        assert(old(self).cci.writes_phase_delay(&between, phase_delay, Ok(()))) by {
            assert(written->Ok_0 == ());
        }
        LeptonError::from_control(reply)
    }

    /// Reads the phase delay.
    pub fn get_phase_delay(&mut self) -> (result: Result<
        (i16, CCI::Status),
        LeptonError<CCI::Error, ErrorKind>,
    >)
        ensures
            old(self).phase_delay_read(final(self), result),
    {
        LeptonError::from_control(self.cci.get_phase_delay())
    }

    /// Writes the GPIO mode.
    pub fn set_gpio_mode(&mut self, gpio_mode: u16) -> (result: Result<
        CCI::Status,
        LeptonError<CCI::Error, ErrorKind>,
    >)
        ensures
            old(self).setting_written(final(self), Setting::GpioMode, gpio_mode, result),
    {
        LeptonError::from_control(self.cci.write(Setting::GpioMode, gpio_mode))
    }

    /// Reads the GPIO mode.
    pub fn get_gpio_mode(&mut self) -> (result: Result<
        (u16, CCI::Status),
        LeptonError<CCI::Error, ErrorKind>,
    >)
        ensures
            old(self).setting_read(final(self), Setting::GpioMode, result),
    {
        LeptonError::from_control(self.cci.read(Setting::GpioMode))
    }

    /// Writes the video output format.
    pub fn set_video_output_format(&mut self, format: u16) -> (result: Result<
        CCI::Status,
        LeptonError<CCI::Error, ErrorKind>,
    >)
        ensures
            old(self).setting_written(final(self), Setting::VideoOutputFormat, format, result),
    {
        LeptonError::from_control(self.cci.write(Setting::VideoOutputFormat, format))
    }

    /// Writes the video output source.
    pub fn set_video_output_source(&mut self, source: u16) -> (result: Result<
        CCI::Status,
        LeptonError<CCI::Error, ErrorKind>,
    >)
        ensures
            old(self).setting_written(final(self), Setting::VideoOutputSource, source, result),
    {
        LeptonError::from_control(self.cci.write(Setting::VideoOutputSource, source))
    }

    /// Reads the video output source.
    pub fn get_video_output_source(&mut self) -> (result: Result<
        (u16, CCI::Status),
        LeptonError<CCI::Error, ErrorKind>,
    >)
        ensures
            old(self).setting_read(final(self), Setting::VideoOutputSource, result),
    {
        LeptonError::from_control(self.cci.read(Setting::VideoOutputSource))
    }

    /// Writes the video output constant.
    pub fn set_video_output_constant(&mut self, constant: u16) -> (result: Result<
        CCI::Status,
        LeptonError<CCI::Error, ErrorKind>,
    >)
        ensures
            old(self).setting_written(
                final(self),
                Setting::VideoOutputConstant,
                constant,
                result,
            ),
    {
        LeptonError::from_control(self.cci.write(Setting::VideoOutputConstant, constant))
    }

    /// Reads the video output constant.
    pub fn get_video_output_constant(&mut self) -> (result: Result<
        (u16, CCI::Status),
        LeptonError<CCI::Error, ErrorKind>,
    >)
        ensures
            old(self).setting_read(final(self), Setting::VideoOutputConstant, result),
    {
        LeptonError::from_control(self.cci.read(Setting::VideoOutputConstant))
    }

    /// Reads the boot flag of the status register.
    pub fn get_boot_status(&mut self) -> (result: Result<bool, LeptonError<CCI::Error, ErrorKind>>)
        ensures
            old(self).flag_read(final(self), StatusFlag::Boot, result),
    {
        LeptonError::from_control(self.cci.read_flag(StatusFlag::Boot))
    }

    /// Reads the interface flag of the status register.
    pub fn get_interface_status(&mut self) -> (result: Result<
        bool,
        LeptonError<CCI::Error, ErrorKind>,
    >)
        ensures
            old(self).flag_read(final(self), StatusFlag::Interface, result),
    {
        LeptonError::from_control(self.cci.read_flag(StatusFlag::Interface))
    }

    /// Writes the telemetry mode.
    pub fn set_telemetry_mode(&mut self, mode: u16) -> (result: Result<
        CCI::Status,
        LeptonError<CCI::Error, ErrorKind>,
    >)
        ensures
            old(self).setting_written(final(self), Setting::TelemetryMode, mode, result),
    {
        LeptonError::from_control(self.cci.write(Setting::TelemetryMode, mode))
    }

    /// Reads the telemetry mode.
    pub fn get_telemetry_mode(&mut self) -> (result: Result<
        (u16, CCI::Status),
        LeptonError<CCI::Error, ErrorKind>,
    >)
        ensures
            old(self).setting_read(final(self), Setting::TelemetryMode, result),
    {
        LeptonError::from_control(self.cci.read(Setting::TelemetryMode))
    }

    /// Reads whether automatic gain control is enabled.
    pub fn get_agc_enable(&mut self) -> (result: Result<
        (u16, CCI::Status),
        LeptonError<CCI::Error, ErrorKind>,
    >)
        ensures
            old(self).setting_read(final(self), Setting::AgcEnable, result),
    {
        LeptonError::from_control(self.cci.read(Setting::AgcEnable))
    }

    /// Enables or disables automatic gain control.
    pub fn set_agc_enable(&mut self, mode: u16) -> (result: Result<
        CCI::Status,
        LeptonError<CCI::Error, ErrorKind>,
    >)
        ensures
            old(self).setting_written(final(self), Setting::AgcEnable, mode, result),
    {
        LeptonError::from_control(self.cci.write(Setting::AgcEnable, mode))
    }

    ///Returns a box containing the frame data as an array
    pub fn get_frame(&mut self) -> (frame: &Box<[u8; FRAME_SIZE]>)
        ensures
            frame@ == old(self).stored_frame(),
            *final(self) == *old(self),
    {
        &self.frame
    }

    /// Sets the frame field on the camera struct to data
    pub fn set_frame(&mut self, data: &[u8]) -> (result: Result<(), &'static str>)
        ensures
            final(self).control() == old(self).control(),
            final(self).stream() == old(self).stream(),
            final(self).spec_seek_limit() == old(self).spec_seek_limit(),
            data@.len() == FRAME_SIZE ==> result is Ok && final(self).stored_frame() == data@,
            data@.len() != FRAME_SIZE ==> {
                &&& result matches Err(why)
                &&& why@ == "Data length does not match frame buffer size"@
                &&& final(self).stored_frame() == old(self).stored_frame()
            },
    {
        if data.len() != FRAME_SIZE {
            return Err("Data length does not match frame buffer size");
        }
        let mut i: usize = 0;
        while i < FRAME_SIZE
            invariant
                i <= FRAME_SIZE,
                data@.len() == FRAME_SIZE,
                forall|j: int| 0 <= j < i ==> self.frame@[j] == data@[j],
                self.cci == old(self).cci,
                self.stream == old(self).stream,
                self.seek_limit == old(self).seek_limit,
            decreases FRAME_SIZE - i,
        {
            self.frame[i] = data[i];
            i = i + 1;
        }
        assert(self.frame@ =~= data@);
        Ok(())
    }

    /// The number of packets that a capture may read while it looks for the start of a
    /// frame.
    pub fn seek_limit(&self) -> (limit: u64)
        ensures
            limit == self.spec_seek_limit(),
    {
        self.seek_limit
    }

    /// Lets a capture read at most `limit` packets while it looks for the start of a
    /// frame.
    pub fn set_seek_limit(&mut self, limit: u64)
        ensures
            final(self).spec_seek_limit() == limit,
            final(self).control() == old(self).control(),
            final(self).stream() == old(self).stream(),
            final(self).stored_frame() == old(self).stored_frame(),
    {
        self.seek_limit = limit;
    }
}

impl<SPI> Lepton<RegisterBank, SPI> {
    /// On a register bank a setting reads back as it was written: when a write of
    /// `value` was answered, the next read of the same setting is answered with
    /// `value`.
    pub proof fn lemma_setting_round_trip(
        before: Self,
        written: Self,
        after: Self,
        setting: Setting,
        value: u16,
        set_result: Result<i16, LeptonError<LinkDown, ErrorKind>>,
        get_result: Result<(u16, i16), LeptonError<LinkDown, ErrorKind>>,
    )
        requires
            before.setting_written(&written, setting, value, set_result),
            written.setting_read(&after, setting, get_result),
            set_result is Ok,
        ensures
            get_result == Ok::<(u16, i16), LeptonError<LinkDown, ErrorKind>>(
                (value, before.control().status),
            ),
    {
    }

    /// On a register bank the phase delay reads back as it was written: when a write of
    /// `value` was answered, the next read of the phase delay is answered with `value`.
    pub proof fn lemma_phase_delay_round_trip(
        before: Self,
        written: Self,
        after: Self,
        value: i16,
        set_result: Result<i16, LeptonError<LinkDown, ErrorKind>>,
        get_result: Result<(i16, i16), LeptonError<LinkDown, ErrorKind>>,
    )
        requires
            before.phase_delay_written(&written, value, set_result),
            written.phase_delay_read(&after, get_result),
            set_result is Ok,
        ensures
            get_result == Ok::<(i16, i16), LeptonError<LinkDown, ErrorKind>>(
                (value, before.control().status),
            ),
    {
    }
}

impl<CCI: RegisterInterface, SPI: SpiDevice> Lepton<CCI, SPI> {
    /// A driver over the register-interface service `cci` and the streaming bus `spi`.
    /// Its stored frame is all zeros, and a capture may look for the start of a frame
    /// for as long as a 64-bit count of packets lasts.
    pub fn new(cci: CCI, spi: SPI) -> (camera: Self)
        ensures
            camera.control() == cci,
            camera.stream().device() == spi,
            camera.stream().reads() == Seq::<BusRead>::empty(),
            camera.stored_frame() == Seq::new(FRAME_SIZE as nat, |i: int| 0u8),
            camera.spec_seek_limit() == u64::MAX,
    {
        let camera = Lepton {
            cci,
            stream: Stream::new(spi),
            frame: Box::new([0u8; FRAME_SIZE]),
            seek_limit: u64::MAX,
        };
        assert(camera.frame@ =~= Seq::new(FRAME_SIZE as nat, |i: int| 0u8));
        camera
    }

    ///Returns a u8 vec containing the frame data
    ///
    /// Packets are read one at a time until one opens a frame; a packet that does not,
    /// and a read that fails, is passed over. At most `seek_limit` packets are read this
    /// way, and `NoFrameStart` is returned when none of them opened a frame. The rest of
    /// the frame is then read in one transfer behind the opening packet, and taken as
    /// it comes: the headers of its packets are not looked at. If that transfer fails,
    /// its error is returned at once: nothing is read again, and what the transfer had
    /// delivered is neither completed nor cleared but dropped with the buffer that it
    /// went into.
    ///
    /// The stored frame is never touched, whatever the outcome: a caller who wants to
    /// keep a captured frame hands it to `set_frame`.
    pub fn read_frame(&mut self) -> (result: Result<Vec<u8>, LeptonError<CCI::Error, ErrorKind>>)
        ensures
            final(self).control() == old(self).control(),
            final(self).stored_frame() == old(self).stored_frame(),
            final(self).spec_seek_limit() == old(self).spec_seek_limit(),
            old(self).stream().reads().is_prefix_of(final(self).stream().reads()),
            is_capture(
                final(self).reads_since(old(self)),
                old(self).spec_seek_limit(),
                frame_bytes(result),
            ),
    {
        let ghost before = self.stream.reads();
        let ghost made: Seq<BusRead> = Seq::empty();
        let mut first_packet = [0u8; PACKET_SIZE];
        let mut found = false;
        let mut count: u64 = 0;
        while !found && count < self.seek_limit
            invariant
                self.cci == old(self).cci,
                self.frame == old(self).frame,
                self.seek_limit == old(self).seek_limit,
                before == old(self).stream.reads(),
                self.stream.reads() == before + made,
                made.len() == count,
                count <= self.seek_limit,
                !found ==> forall|i: int| 0 <= i < made.len() ==> passed_over(#[trigger] made[i]),
                found ==> {
                    &&& count > 0
                    &&& forall|i: int| 0 <= i < made.len() - 1 ==> passed_over(#[trigger] made[i])
                    &&& opens_frame(made[made.len() - 1])
                    &&& made[made.len() - 1].bytes == first_packet@
                },
            decreases self.seek_limit - count + if found { 0int } else { 1int },
        {
            count = count + 1;
            let packet = self.check_packet();
            proof {
                let read = self.stream.reads().last();
                assert(self.stream.reads() =~= before + made.push(read));
                made = made.push(read);
            }
            match frame_start(packet) {
                Some(opening) => {
                    first_packet = opening;
                    found = true;
                },
                None => {},
            }
        }
        if !found {
            assert(self.stream.reads().skip(before.len() as int) =~= made);
            return Err(LeptonError::NoFrameStart);
        }
        let mut frame = vec![0u8; FRAME_SIZE];
        let (head, rest) = frame.as_mut_slice().split_at_mut(PACKET_SIZE);
        let mut i: usize = 0;
        while i < PACKET_SIZE
            invariant
                i <= PACKET_SIZE,
                head@.len() == PACKET_SIZE,
                forall|j: int| 0 <= j < i ==> head@[j] == first_packet@[j],
            decreases PACKET_SIZE - i,
        {
            head[i] = first_packet[i];
            i = i + 1;
        }
        let outcome = self.stream.read(rest);
        proof {
            let last = BusRead { bytes: rest@, failure: failure_of(outcome) };
            assert(head@ =~= first_packet@);
            assert(frame@ =~= first_packet@ + rest@);
            assert(self.stream.reads().skip(before.len() as int) =~= made.push(last));
        }
        finish(frame, outcome)
    }

    /// Reads one packet from the streaming bus.
    fn check_packet(&mut self) -> (result: Result<
        [u8; PACKET_SIZE],
        LeptonError<CCI::Error, ErrorKind>,
    >)
        ensures
            final(self).cci == old(self).cci,
            final(self).frame == old(self).frame,
            final(self).seek_limit == old(self).seek_limit,
            final(self).stream.reads() == old(self).stream.reads().push(
                final(self).stream.reads().last(),
            ),
            final(self).stream.reads().last().bytes.len() == PACKET_SIZE,
            match result {
                Ok(packet) => {
                    &&& final(self).stream.reads().last().failure is None
                    &&& final(self).stream.reads().last().bytes == packet@
                },
                Err(LeptonError::Spi(e)) => final(self).stream.reads().last().failure == Some(e),
                Err(_) => false,
            },
    {
        let mut packet = [0u8; PACKET_SIZE];
        let outcome = self.stream.read(&mut packet);
        match outcome {
            Ok(()) => Ok(packet),
            Err(e) => Err(LeptonError::Spi(e)),
        }
    }
}

} // verus!
