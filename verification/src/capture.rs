//! What a frame capture does, told over the reads it makes on the streaming bus.
//!
//! A capture first looks for the start of a frame: it reads one packet at a time and
//! passes over every packet that does not open a frame, and every read that failed.
//! Once it has the opening packet, or has read as many packets as its seek limit
//! allows, it stops looking. With the opening packet in hand it reads the rest of the
//! frame in one transfer and hands out the opening packet with the rest behind it.

use crate::bus::BusRead;
use crate::error::LeptonError;
use crate::packet::{
    header_word, is_discard, lemma_discard_never_starts_frame, lemma_frame_start_headers,
    packet_starts_frame, sequence_number, starts_frame, FRAME_SIZE, PACKET_SIZE,
};
use embedded_hal::spi::ErrorKind;
use vstd::prelude::*;

verus! {

/// The read went through and gave a packet that opens a frame.
pub open spec fn opens_frame(read: BusRead) -> bool {
    read.failure is None && starts_frame(read.bytes)
}

/// The read asked for one packet and did not give one that opens a frame.
pub open spec fn passed_over(read: BusRead) -> bool {
    read.bytes.len() == PACKET_SIZE && !opens_frame(read)
}

/// The result of a capture with the frame taken as the sequence of its bytes.
pub open spec fn frame_bytes<I2C>(result: Result<Vec<u8>, LeptonError<I2C, ErrorKind>>) -> Result<
    Seq<u8>,
    LeptonError<I2C, ErrorKind>,
> {
    match result {
        Ok(frame) => Ok(frame@),
        Err(e) => Err(e),
    }
}

/// `reads` are the reads of a capture that never met the start of a frame: as many
/// packets as `limit` allows, each of them passed over.
pub open spec fn seeks_in_vain(reads: Seq<BusRead>, limit: u64) -> bool {
    &&& reads.len() == limit
    &&& forall|i: int| 0 <= i < reads.len() ==> passed_over(#[trigger] reads[i])
}

/// `reads` are the reads of a capture that met the start of a frame: packets that
/// were passed over, fewer than `limit`; then the packet that opens the frame; then
/// one read for all of the frame that lies behind that packet.
pub open spec fn seeks_and_finds(reads: Seq<BusRead>, limit: u64) -> bool {
    &&& 2 <= reads.len() <= limit + 1
    &&& forall|i: int| 0 <= i < reads.len() - 2 ==> passed_over(#[trigger] reads[i])
    &&& reads[reads.len() - 2].bytes.len() == PACKET_SIZE
    &&& opens_frame(reads[reads.len() - 2])
    &&& reads[reads.len() - 1].bytes.len() == FRAME_SIZE - PACKET_SIZE
}

/// A capture under the seek limit `limit` that made exactly the reads `reads`, in this
/// order, returns `result`.
pub open spec fn is_capture<I2C>(
    reads: Seq<BusRead>,
    limit: u64,
    result: Result<Seq<u8>, LeptonError<I2C, ErrorKind>>,
) -> bool {
    ||| seeks_in_vain(reads, limit) && result == Err::<Seq<u8>, LeptonError<I2C, ErrorKind>>(
        LeptonError::NoFrameStart,
    )
    ||| seeks_and_finds(reads, limit) && result == (match reads[reads.len() - 1].failure {
        None => Ok::<Seq<u8>, LeptonError<I2C, ErrorKind>>(
            reads[reads.len() - 2].bytes + reads[reads.len() - 1].bytes,
        ),
        Some(e) => Err(LeptonError::Spi(e)),
    })
}

/// What a capture that looks for the start of a frame makes of one packet read: a
/// packet that opens a frame is kept as the frame's first packet; any other packet,
/// and a read that failed, is passed over.
pub open spec fn frame_start_of<E>(outcome: Result<[u8; PACKET_SIZE], E>) -> Option<
    [u8; PACKET_SIZE],
> {
    match outcome {
        Ok(packet) => if starts_frame(packet@) {
            Some(packet)
        } else {
            None
        },
        Err(_) => None,
    }
}

/// Decides whether the packet read with `outcome` opens the frame.
pub fn frame_start<E>(outcome: Result<[u8; PACKET_SIZE], E>) -> (start: Option<[u8; PACKET_SIZE]>)
    ensures
        start == frame_start_of(outcome),
{
    match outcome {
        Ok(packet) => {
            if packet_starts_frame(&packet) {
                Some(packet)
            } else {
                None
            }
        },
        Err(_) => None,
    }
}

/// Closes a capture once the transfer of the packets behind the first has ended with
/// `outcome`: the frame is handed out if the transfer went through; if not, its error
/// is handed out as the streaming channel's and the frame is dropped as it is.
pub fn finish<I2C, SPI>(frame: Vec<u8>, outcome: Result<(), SPI>) -> (result: Result<
    Vec<u8>,
    LeptonError<I2C, SPI>,
>)
    ensures
        result == LeptonError::<I2C, SPI>::stream_reply(
            match outcome {
                Ok(_) => Ok::<Vec<u8>, SPI>(frame),
                Err(e) => Err(e),
            },
        ),
{
    LeptonError::from_stream(
        match outcome {
            Ok(()) => Ok(frame),
            Err(e) => Err(e),
        },
    )
}

/// A packet-sized read that gave filler, or that failed, is passed over.
pub proof fn lemma_filler_and_failures_are_passed_over(read: BusRead)
    requires
        read.bytes.len() == PACKET_SIZE,
        is_discard(read.bytes) || read.failure is Some,
    ensures
        passed_over(read),
{
    if is_discard(read.bytes) {
        lemma_discard_never_starts_frame(read.bytes);
    }
}

/// A search ends one way: the same reads cannot be those of a capture that gave up and
/// those of a capture that met the start of a frame.
pub proof fn lemma_seek_ends_one_way(reads: Seq<BusRead>, limit: u64)
    ensures
        !(seeks_in_vain(reads, limit) && seeks_and_finds(reads, limit)),
{
    if seeks_in_vain(reads, limit) && seeks_and_finds(reads, limit) {
        assert(passed_over(reads[reads.len() - 2]));
    }
}

/// The reads of a capture settle its result: two captures that made the same reads
/// under the same limit return the same.
pub proof fn lemma_capture_is_settled_by_its_reads<I2C>(
    reads: Seq<BusRead>,
    limit: u64,
    one: Result<Seq<u8>, LeptonError<I2C, ErrorKind>>,
    other: Result<Seq<u8>, LeptonError<I2C, ErrorKind>>,
)
    requires
        is_capture(reads, limit, one),
        is_capture(reads, limit, other),
    ensures
        one == other,
{
    lemma_seek_ends_one_way(reads, limit);
}

/// A capture does not end its search before a packet opens a frame: one that returns
/// anything but `NoFrameStart` has passed over every read before its last two, met
/// the start of a frame in the read before its last, and read the rest of the frame
/// last. A frame that it returns begins with the opening packet.
pub proof fn lemma_capture_waits_for_frame_start<I2C>(
    reads: Seq<BusRead>,
    limit: u64,
    result: Result<Seq<u8>, LeptonError<I2C, ErrorKind>>,
)
    requires
        is_capture(reads, limit, result),
    ensures
        result == Err::<Seq<u8>, LeptonError<I2C, ErrorKind>>(LeptonError::NoFrameStart)
            <==> seeks_in_vain(reads, limit),
        result != Err::<Seq<u8>, LeptonError<I2C, ErrorKind>>(LeptonError::NoFrameStart)
            <==> seeks_and_finds(reads, limit),
        result matches Ok(frame) ==> {
            &&& frame.len() == FRAME_SIZE
            &&& frame.subrange(0, PACKET_SIZE as int) == reads[reads.len() - 2].bytes
            &&& frame.subrange(PACKET_SIZE as int, FRAME_SIZE as int) == reads[reads.len()
                - 1].bytes
            &&& starts_frame(frame)
        },
{
    lemma_seek_ends_one_way(reads, limit);
    if let Ok(frame) = result {
        let first = reads[reads.len() - 2].bytes;
        let rest = reads[reads.len() - 1].bytes;
        assert(frame == first + rest);
        assert(frame.subrange(0, PACKET_SIZE as int) =~= first);
        assert(frame.subrange(PACKET_SIZE as int, FRAME_SIZE as int) =~= rest);
        assert(frame[0] == first[0] && frame[1] == first[1]);
    }
}

/// A failure of the transfer that follows the opening packet is what a capture
/// returns as the streaming channel's error, and nothing else is: no failure while the
/// capture looks for the start of a frame comes out of it.
pub proof fn lemma_stream_failure_surfaces<I2C>(
    reads: Seq<BusRead>,
    limit: u64,
    result: Result<Seq<u8>, LeptonError<I2C, ErrorKind>>,
    e: ErrorKind,
)
    requires
        is_capture(reads, limit, result),
    ensures
        result == Err::<Seq<u8>, LeptonError<I2C, ErrorKind>>(LeptonError::Spi(e)) <==> {
            &&& seeks_and_finds(reads, limit)
            &&& reads[reads.len() - 1].failure == Some(e)
        },
        !(result matches Err(LeptonError::I2c(_))),
{
    lemma_seek_ends_one_way(reads, limit);
}

/// A capture on a bus whose answers are known returns the frame that those answers
/// hold. Let `script` list what the bus gives read by read: first `skipped` reads that
/// are passed over, then a packet that opens a frame, then a transfer that goes
/// through. If the seek limit allows more than `skipped` reads, and every read that
/// the capture made got what `script` lists at its place, then the capture made just
/// those `skipped + 2` reads and returns the opening packet with the transfer behind
/// it: nothing of what was passed over is in the frame.
pub proof fn lemma_capture_follows_script<I2C>(
    script: Seq<BusRead>,
    skipped: int,
    reads: Seq<BusRead>,
    limit: u64,
    result: Result<Seq<u8>, LeptonError<I2C, ErrorKind>>,
)
    requires
        0 <= skipped,
        script.len() >= skipped + 2,
        forall|i: int| 0 <= i < skipped ==> passed_over(#[trigger] script[i]),
        opens_frame(script[skipped]),
        script[skipped + 1].failure is None,
        skipped < limit,
        is_capture(reads, limit, result),
        forall|i: int| 0 <= i < reads.len() && i < script.len() ==> #[trigger] reads[i] == script[i],
    ensures
        reads == script.take(skipped + 2),
        forall|i: int| 0 <= i <= skipped ==> (#[trigger] reads[i]).bytes.len() == PACKET_SIZE,
        reads[skipped + 1].bytes.len() == FRAME_SIZE - PACKET_SIZE,
        result == Ok::<Seq<u8>, LeptonError<I2C, ErrorKind>>(
            script[skipped].bytes + script[skipped + 1].bytes,
        ),
{
    if seeks_in_vain(reads, limit) {
        assert(reads[skipped] == script[skipped]);
        assert(passed_over(reads[skipped]));
    }
    let found = reads.len() - 2;
    if found < skipped {
        assert(reads[found] == script[found]);
        assert(passed_over(script[found]));
    }
    if found > skipped {
        assert(reads[skipped] == script[skipped]);
        assert(passed_over(reads[skipped]));
    }
    assert(reads[found + 1] == script[found + 1]);
    assert(reads[found] == script[found]);
    assert(reads =~= script.take(skipped + 2));
}

/// A capture returns only after the packet that opens a frame has come, and with that
/// frame. Let the bus give `skipped` packets of which each is filler or has a sequence
/// number other than 0, then a packet whose header reads 0, then a transfer that goes
/// through, as `script` lists them. A capture whose seek limit allows more than
/// `skipped` reads, and whose reads got these answers, makes `skipped + 1` reads of one
/// packet each and then one read of the rest of a frame, and returns the packet with
/// header 0 followed by the transfer: no byte of the packets before it is in the frame.
pub proof fn lemma_capture_returns_at_frame_start<I2C>(
    script: Seq<BusRead>,
    skipped: int,
    reads: Seq<BusRead>,
    limit: u64,
    result: Result<Seq<u8>, LeptonError<I2C, ErrorKind>>,
)
    requires
        0 <= skipped < limit,
        script.len() >= skipped + 2,
        forall|i: int|
            0 <= i < skipped ==> {
                &&& (#[trigger] script[i]).bytes.len() == PACKET_SIZE
                &&& is_discard(script[i].bytes) || sequence_number(script[i].bytes) != 0
            },
        script[skipped].failure is None,
        script[skipped].bytes.len() == PACKET_SIZE,
        header_word(script[skipped].bytes) == 0,
        script[skipped + 1].failure is None,
        is_capture(reads, limit, result),
        forall|i: int| 0 <= i < reads.len() && i < script.len() ==> #[trigger] reads[i] == script[i],
    ensures
        reads.len() == skipped + 2,
        forall|i: int| 0 <= i <= skipped ==> (#[trigger] reads[i]).bytes.len() == PACKET_SIZE,
        reads[skipped + 1].bytes.len() == FRAME_SIZE - PACKET_SIZE,
        result == Ok::<Seq<u8>, LeptonError<I2C, ErrorKind>>(
            script[skipped].bytes + script[skipped + 1].bytes,
        ),
{
    lemma_frame_start_headers(script[skipped].bytes);
    assert forall|i: int| 0 <= i < skipped implies passed_over(#[trigger] script[i]) by {
        if is_discard(script[i].bytes) {
            lemma_discard_never_starts_frame(script[i].bytes);
        }
    }
    lemma_capture_follows_script(script, skipped, reads, limit, result);
}

} // verus!
