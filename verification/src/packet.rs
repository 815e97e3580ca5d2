//! Layout of the packet stream: sizes, and the two-byte header that opens every packet.

use vstd::prelude::*;

verus! {

/// Bytes in one packet of the stream.
pub const PACKET_SIZE: usize = 164;

/// Packets that make up one frame.
pub const PACKETS_PER_FRAME: usize = 60;

/// Bytes in one frame.
pub const FRAME_SIZE: usize = PACKETS_PER_FRAME * PACKET_SIZE;

/// The header of a packet: its first two bytes read as one big-endian number. The
/// high nibble of the upper byte holds the discard mark; the 12 bits below it hold
/// the packet's sequence number.
pub open spec fn header_word(packet: Seq<u8>) -> int
    recommends
        packet.len() >= 2,
{
    packet[0] * 256 + packet[1]
}

/// Filler that the camera sends between frames is marked in the upper byte of its
/// header: every bit of that byte's high nibble is set.
pub open spec fn is_discard(packet: Seq<u8>) -> bool
    recommends
        packet.len() >= 2,
{
    packet[0] & 0xF0 == 0xF0
}

/// The place of a packet in its frame, counted from 0: the low 12 bits of the header,
/// which are all that the nibble of the discard mark leaves. It has a meaning only
/// for a packet that is not filler.
pub open spec fn sequence_number(packet: Seq<u8>) -> int
    recommends
        packet.len() >= 2,
{
    header_word(packet) % 0x1000
}

/// A packet opens a frame when it is not filler and its sequence number is 0.
pub open spec fn starts_frame(packet: Seq<u8>) -> bool
    recommends
        packet.len() >= 2,
{
    !is_discard(packet) && sequence_number(packet) == 0
}

/// Reads the header of `packet`.
pub fn packet_header(packet: &[u8]) -> (word: u16)
    requires
        packet@.len() >= 2,
    ensures
        word == header_word(packet@),
{
    let high: u16 = packet[0] as u16;
    let low: u16 = packet[1] as u16;
    high * 256 + low
}

/// Tells whether `packet` is filler to be skipped.
pub fn packet_is_discard(packet: &[u8]) -> (discard: bool)
    requires
        packet@.len() >= 2,
    ensures
        discard == is_discard(packet@),
{
    packet[0] & 0xF0 == 0xF0
}

/// Reads the sequence number of `packet`.
pub fn packet_sequence_number(packet: &[u8]) -> (number: u16)
    requires
        packet@.len() >= 2,
    ensures
        number == sequence_number(packet@),
        number < 0x1000,
{
    packet_header(packet) % 0x1000
}

/// Tells whether `packet` opens a frame.
pub fn packet_starts_frame(packet: &[u8]) -> (starts: bool)
    requires
        packet@.len() >= 2,
    ensures
        starts == starts_frame(packet@),
{
    !packet_is_discard(packet) && packet_sequence_number(packet) == 0
}

/// Filler never opens a frame, whatever its low bits are; its header is at least
/// 0xF000.
pub proof fn lemma_discard_never_starts_frame(packet: Seq<u8>)
    requires
        packet.len() >= 2,
        is_discard(packet),
    ensures
        header_word(packet) >= 0xF000,
        !starts_frame(packet),
{
    let upper: u8 = packet[0];
    assert(upper & 0xF0 == 0xF0 ==> upper >= 0xF0) by (bit_vector);
}

/// Which headers open a frame, byte by byte: the lower byte is 0, the low nibble of
/// the upper byte is 0, and its high nibble is anything but the discard mark. A header
/// that reads 0 is one of them.
pub proof fn lemma_frame_start_headers(packet: Seq<u8>)
    requires
        packet.len() >= 2,
    ensures
        starts_frame(packet) <==> packet[1] == 0 && packet[0] & 0x0F == 0 && packet[0] & 0xF0
            != 0xF0,
        header_word(packet) == 0 ==> starts_frame(packet),
{
    let upper: u8 = packet[0];
    let lower: u8 = packet[1];
    assert(upper & 0x0F == upper % 16) by (bit_vector);
    assert(upper == 0 ==> upper & 0xF0 != 0xF0) by (bit_vector);
    assert((upper * 256 + lower) % 0x1000 == (upper % 16) * 256 + lower) by {
        assert(upper * 256 + lower == 0x1000 * (upper / 16) + ((upper % 16) * 256 + lower));
        vstd::arithmetic::div_mod::lemma_fundamental_div_mod_converse(
            upper * 256 + lower,
            0x1000,
            (upper / 16) as int,
            (upper % 16) * 256 + lower,
        );
    }
}

} // verus!
