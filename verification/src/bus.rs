//! The streaming channel, with a record of every read that was made on it.

use embedded_hal::spi::{ErrorKind, SpiDevice};
use vstd::prelude::*;

verus! {

/// `embedded_hal::spi::ErrorKind`, the general kind of an SPI failure. The driver
/// carries such a value to its caller and never looks into it.
#[verifier::external_type_specification]
#[verifier::external_body]
pub struct ExErrorKind(ErrorKind);

/// One read on the streaming channel, made with `embedded_hal::spi::SpiDevice::read`.
///
/// The device fills `buf` and reports success, or reports a failure of its bus, which
/// is returned as the kind that `embedded_hal::spi::Error::kind` gives for it. What
/// arrives, and whether the call returns at all, is the device's to decide: all that
/// is claimed is that `buf` is as long after the call as before it.
#[verifier::external_body]
fn stream_read<SPI: SpiDevice>(spi: &mut SPI, buf: &mut [u8]) -> (outcome: Result<(), ErrorKind>)
    ensures
        final(buf)@.len() == old(buf)@.len(),
{
    match spi.read(buf) {
        Ok(()) => Ok(()),
        Err(e) => Err(embedded_hal::spi::Error::kind(&e)),
    }
}

/// One read as the driver saw it end.
pub struct BusRead {
    /// What the buffer held when the read returned.
    pub bytes: Seq<u8>,
    /// The failure that the bus reported, if it reported one.
    pub failure: Option<ErrorKind>,
}

/// The failure in the outcome of a read, if there is one.
pub open spec fn failure_of(outcome: Result<(), ErrorKind>) -> Option<ErrorKind> {
    match outcome {
        Ok(_) => None,
        Err(e) => Some(e),
    }
}

/// A streaming bus together with the record of the reads made on it. Nothing but
/// [`Stream::read`] adds to the record, so it holds exactly what the bus has given.
pub struct Stream<SPI> {
    spi: SPI,
    heard: Ghost<Seq<BusRead>>,
}

impl<SPI> Stream<SPI> {
    /// The bus itself.
    pub closed spec fn device(&self) -> SPI {
        self.spi
    }

    /// Every read made so far, oldest first.
    pub closed spec fn reads(&self) -> Seq<BusRead> {
        self.heard@
    }
}

impl<SPI: SpiDevice> Stream<SPI> {
    /// A stream on `spi` with no read made yet.
    pub fn new(spi: SPI) -> (stream: Self)
        ensures
            stream.device() == spi,
            stream.reads() == Seq::<BusRead>::empty(),
    {
        Stream { spi, heard: Ghost(Seq::empty()) }
    }

    /// Reads into `buf` and adds the read to the record.
    pub fn read(&mut self, buf: &mut [u8]) -> (outcome: Result<(), ErrorKind>)
        ensures
            final(buf)@.len() == old(buf)@.len(),
            final(self).reads() == old(self).reads().push(
                BusRead { bytes: final(buf)@, failure: failure_of(outcome) },
            ),
    {
        let outcome = stream_read(&mut self.spi, buf);
        self.heard = Ghost(self.heard@.push(BusRead { bytes: buf@, failure: failure_of(outcome) }));
        outcome
    }
}

} // verus!
