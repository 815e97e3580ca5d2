use embedded_hal::spi::{ErrorKind, ErrorType, Operation, SpiDevice};
use lepton::{
    Lepton, LeptonError, RegisterBank, Stream, FRAME_SIZE, PACKETS_PER_FRAME, PACKET_SIZE,
};

/// A camera's stream played from memory. Every read takes the next bytes of the
/// stream, however many the buffer asks for; the reads whose numbers are listed in
/// `failing` deliver nothing and fail instead.
struct PlayedStream {
    stream: Vec<u8>,
    cursor: usize,
    failing: Vec<usize>,
    read_sizes: Vec<usize>,
}

impl PlayedStream {
    fn of(stream: Vec<u8>) -> Self {
        PlayedStream { stream, cursor: 0, failing: Vec::new(), read_sizes: Vec::new() }
    }

    fn failing_at(mut self, reads: &[usize]) -> Self {
        self.failing = reads.to_vec();
        self
    }
}

impl ErrorType for PlayedStream {
    type Error = ErrorKind;
}

impl SpiDevice for PlayedStream {
    fn transaction(&mut self, operations: &mut [Operation<'_, u8>]) -> Result<(), ErrorKind> {
        for operation in operations.iter_mut() {
            if let Operation::Read(buf) = operation {
                let number = self.read_sizes.len();
                self.read_sizes.push(buf.len());
                if self.failing.contains(&number) {
                    return Err(ErrorKind::Overrun);
                }
                if self.cursor + buf.len() > self.stream.len() {
                    return Err(ErrorKind::Other);
                }
                buf.copy_from_slice(&self.stream[self.cursor..self.cursor + buf.len()]);
                self.cursor += buf.len();
            }
        }
        Ok(())
    }
}

fn packet(high: u8, low: u8, fill: u8) -> Vec<u8> {
    let mut bytes = vec![fill; PACKET_SIZE];
    bytes[0] = high;
    bytes[1] = low;
    bytes
}

fn filler(fill: u8) -> Vec<u8> {
    packet(0xFF, 0xFF, fill)
}

/// Sixty packets numbered 0..59 in their headers; packet `k` is filled with `k + 100`.
fn whole_frame() -> Vec<u8> {
    let mut bytes = Vec::new();
    for k in 0..PACKETS_PER_FRAME {
        bytes.extend(packet((k >> 8) as u8, (k & 0xFF) as u8, (k + 100) as u8));
    }
    bytes
}

#[test]
fn sizes_are_those_of_the_camera() {
    assert_eq!(PACKET_SIZE, 164);
    assert_eq!(PACKETS_PER_FRAME, 60);
    assert_eq!(FRAME_SIZE, 9840);
}

#[test]
fn capture_skips_filler_before_the_frame() {
    let payload = whole_frame();
    let mut stream = Vec::new();
    stream.extend(filler(200));
    stream.extend(filler(201));
    stream.extend(payload.clone());
    let mut bus = PlayedStream::of(stream);

    let frame = Lepton::new(RegisterBank::new(), &mut bus).read_frame().unwrap();

    assert_eq!(frame.len(), FRAME_SIZE);
    assert_eq!(frame, payload);
    assert!(!frame.contains(&200));
    assert!(!frame.contains(&201));
    assert!(!frame.contains(&0xFF));
    assert_eq!(bus.read_sizes, vec![PACKET_SIZE, PACKET_SIZE, PACKET_SIZE, FRAME_SIZE - PACKET_SIZE]);
}

#[test]
fn capture_waits_for_the_first_packet_of_a_frame() {
    for skipped in [0usize, 1, 5, 40] {
        let payload = whole_frame();
        let mut stream = Vec::new();
        for n in 0..skipped {
            stream.extend(packet(0x00, (n % 59) as u8 + 1, 0x33));
        }
        stream.extend(payload.clone());
        let mut bus = PlayedStream::of(stream);

        let frame = Lepton::new(RegisterBank::new(), &mut bus).read_frame().unwrap();

        assert_eq!(frame, payload);
        let mut expected = vec![PACKET_SIZE; skipped + 1];
        expected.push(FRAME_SIZE - PACKET_SIZE);
        assert_eq!(bus.read_sizes, expected);
    }
}

#[test]
fn capture_of_an_aligned_stream_keeps_every_header() {
    let mut bus = PlayedStream::of(whole_frame());

    let frame = Lepton::new(RegisterBank::new(), &mut bus).read_frame().unwrap();

    assert_eq!(frame.len(), 9840);
    for k in 0..60usize {
        assert_eq!(frame[164 * k], (k >> 8) as u8);
        assert_eq!(frame[164 * k + 1], (k & 0xFF) as u8);
        assert_eq!(frame[164 * k + 2], (k + 100) as u8);
        assert_eq!(frame[164 * k + 163], (k + 100) as u8);
    }
    assert_eq!(bus.read_sizes, vec![164, 9676]);
}

#[test]
fn capture_passes_over_a_header_with_a_high_byte_only() {
    let payload = whole_frame();
    let mut stream = packet(0x01, 0x00, 0x44);
    stream.extend(payload.clone());
    let mut bus = PlayedStream::of(stream);

    let frame = Lepton::new(RegisterBank::new(), &mut bus).read_frame().unwrap();

    assert_eq!(frame, payload);
}

#[test]
fn capture_retries_a_failed_read_while_it_seeks() {
    let payload = whole_frame();
    let mut stream = filler(0x11);
    stream.extend(payload.clone());
    let mut bus = PlayedStream::of(stream).failing_at(&[0, 1, 3]);

    let frame = Lepton::new(RegisterBank::new(), &mut bus).read_frame().unwrap();

    assert_eq!(frame, payload);
    assert_eq!(
        bus.read_sizes,
        vec![PACKET_SIZE, PACKET_SIZE, PACKET_SIZE, PACKET_SIZE, PACKET_SIZE, FRAME_SIZE - PACKET_SIZE]
    );
}

#[test]
fn capture_fails_when_the_rest_of_the_frame_fails() {
    let mut stream = filler(0x11);
    stream.extend(whole_frame());
    let mut bus = PlayedStream::of(stream).failing_at(&[2]);

    let result = Lepton::new(RegisterBank::new(), &mut bus).read_frame();

    assert!(matches!(result, Err(LeptonError::Spi(ErrorKind::Overrun))));
    assert_eq!(bus.read_sizes, vec![PACKET_SIZE, PACKET_SIZE, FRAME_SIZE - PACKET_SIZE]);
}

#[test]
fn capture_hands_on_the_kind_of_the_bus_error() {
    let mut stream = Vec::new();
    stream.extend(packet(0, 0, 1));
    let mut bus = PlayedStream::of(stream);

    let result = Lepton::new(RegisterBank::new(), &mut bus).read_frame();

    assert!(matches!(result, Err(LeptonError::Spi(ErrorKind::Other))));
}

#[test]
fn capture_can_be_tried_again_after_a_failure() {
    let payload = whole_frame();
    let mut stream = packet(0, 0, 9);
    stream.extend(payload.clone());
    let mut bus = PlayedStream::of(stream).failing_at(&[1]);
    let mut lepton = Lepton::new(RegisterBank::new(), &mut bus);

    assert!(matches!(lepton.read_frame(), Err(LeptonError::Spi(ErrorKind::Overrun))));
    assert_eq!(lepton.read_frame().unwrap(), payload);
}

#[test]
fn capture_leaves_the_stored_frame_alone() {
    let mut stream = whole_frame();
    stream.extend(packet(0, 0, 1));
    let mut bus = PlayedStream::of(stream);
    let mut lepton = Lepton::new(RegisterBank::new(), &mut bus);

    assert_eq!(&lepton.get_frame()[..], &vec![0u8; FRAME_SIZE][..]);
    let stored = vec![0x5Au8; FRAME_SIZE];
    lepton.set_frame(&stored).unwrap();

    let frame = lepton.read_frame().unwrap();
    assert_eq!(frame, whole_frame());
    assert_eq!(&lepton.get_frame()[..], &stored[..]);

    assert!(lepton.read_frame().is_err());
    assert_eq!(&lepton.get_frame()[..], &stored[..]);
}

#[test]
fn capture_leaves_the_register_service_alone() {
    let mut bus = PlayedStream::of(whole_frame());
    let mut bank = RegisterBank::new();
    bank.link_up = false;
    let mut lepton = Lepton::new(bank, &mut bus);

    assert_eq!(lepton.read_frame().unwrap(), whole_frame());
}

#[test]
fn seek_limit_starts_at_the_largest_count() {
    let mut bus = PlayedStream::of(Vec::new());
    let lepton = Lepton::new(RegisterBank::new(), &mut bus);
    assert_eq!(lepton.seek_limit(), u64::MAX);
}

#[test]
fn capture_gives_up_at_the_seek_limit() {
    let mut stream = Vec::new();
    for _ in 0..5 {
        stream.extend(filler(0x11));
    }
    stream.extend(whole_frame());
    let mut bus = PlayedStream::of(stream);
    {
        let mut lepton = Lepton::new(RegisterBank::new(), &mut bus);
        lepton.set_seek_limit(3);
        assert_eq!(lepton.seek_limit(), 3);
        assert!(matches!(lepton.read_frame(), Err(LeptonError::NoFrameStart)));
    }
    assert_eq!(bus.read_sizes, vec![PACKET_SIZE; 3]);
}

#[test]
fn capture_finds_the_frame_on_the_last_read_of_the_limit() {
    let payload = whole_frame();
    let mut stream = Vec::new();
    for _ in 0..5 {
        stream.extend(filler(0x11));
    }
    stream.extend(payload.clone());
    let mut bus = PlayedStream::of(stream);
    let mut lepton = Lepton::new(RegisterBank::new(), &mut bus);
    lepton.set_seek_limit(6);

    assert_eq!(lepton.read_frame().unwrap(), payload);
}

#[test]
fn capture_with_no_seek_limit_reads_nothing() {
    let mut bus = PlayedStream::of(whole_frame());
    {
        let mut lepton = Lepton::new(RegisterBank::new(), &mut bus);
        lepton.set_seek_limit(0);
        assert!(matches!(lepton.read_frame(), Err(LeptonError::NoFrameStart)));
    }
    assert!(bus.read_sizes.is_empty());
}

#[test]
fn failed_reads_count_towards_the_seek_limit() {
    let mut bus = PlayedStream::of(whole_frame()).failing_at(&[0, 1]);
    {
        let mut lepton = Lepton::new(RegisterBank::new(), &mut bus);
        lepton.set_seek_limit(2);
        assert!(matches!(lepton.read_frame(), Err(LeptonError::NoFrameStart)));
    }
    assert_eq!(bus.read_sizes, vec![PACKET_SIZE; 2]);
}

#[test]
fn new_camera_stores_a_frame_of_zeros() {
    let mut bus = PlayedStream::of(Vec::new());
    let mut lepton = Lepton::new(RegisterBank::new(), &mut bus);
    let frame = lepton.get_frame();
    assert_eq!(frame.len(), FRAME_SIZE);
    assert!(frame.iter().all(|byte| *byte == 0));
}

#[test]
fn set_frame_stores_a_frame_of_the_right_length() {
    let mut bus = PlayedStream::of(Vec::new());
    let mut lepton = Lepton::new(RegisterBank::new(), &mut bus);
    let data: Vec<u8> = (0..FRAME_SIZE).map(|i| (i % 251) as u8).collect();

    assert_eq!(lepton.set_frame(&data), Ok(()));
    assert_eq!(&lepton.get_frame()[..], &data[..]);
}

#[test]
fn set_frame_refuses_any_other_length() {
    let mut bus = PlayedStream::of(Vec::new());
    let mut lepton = Lepton::new(RegisterBank::new(), &mut bus);
    let stored: Vec<u8> = (0..FRAME_SIZE).map(|i| (i % 13) as u8).collect();
    lepton.set_frame(&stored).unwrap();

    for length in [0usize, 1, PACKET_SIZE, FRAME_SIZE - 1, FRAME_SIZE + 1, 2 * FRAME_SIZE] {
        let data = vec![0xEEu8; length];
        assert_eq!(lepton.set_frame(&data), Err("Data length does not match frame buffer size"));
        assert_eq!(&lepton.get_frame()[..], &stored[..]);
    }
}

#[test]
fn stream_read_fills_the_buffer_from_the_bus() {
    let mut bus = PlayedStream::of(vec![1, 2, 3, 4, 5, 6, 7]);
    {
        let mut stream = Stream::new(&mut bus);
        let mut first = [0u8; 3];
        assert_eq!(stream.read(&mut first), Ok(()));
        assert_eq!(first, [1, 2, 3]);
        let mut second = [0u8; 4];
        assert_eq!(stream.read(&mut second), Ok(()));
        assert_eq!(second, [4, 5, 6, 7]);
    }
    assert_eq!(bus.read_sizes, vec![3, 4]);
}

#[test]
fn stream_read_reports_the_kind_of_a_bus_failure() {
    let mut bus = PlayedStream::of(vec![1, 2, 3]).failing_at(&[0]);
    let mut stream = Stream::new(&mut bus);
    let mut buf = [9u8; 2];
    assert_eq!(stream.read(&mut buf), Err(ErrorKind::Overrun));
    assert_eq!(stream.read(&mut buf), Ok(()));
    assert_eq!(buf, [1, 2]);
    assert_eq!(stream.read(&mut buf), Err(ErrorKind::Other));
}

#[test]
fn capture_starts_at_sequence_zero_under_any_mark_but_filler() {
    let mut opening = vec![0xAAu8; PACKET_SIZE];
    opening[0] = 0x10;
    opening[1] = 0x00;
    let mut next = vec![0xCCu8; PACKET_SIZE];
    next[0] = 0x00;
    next[1] = 0x00;
    let mut stream = opening.clone();
    stream.extend(next.clone());
    stream.extend(vec![0xBBu8; FRAME_SIZE - PACKET_SIZE]);
    let mut bus = PlayedStream::of(stream);

    let frame = Lepton::new(RegisterBank::new(), &mut bus).read_frame().unwrap();

    assert_eq!(frame.len(), FRAME_SIZE);
    assert_eq!(&frame[0..2], &[0x10, 0x00]);
    assert!(frame[2..PACKET_SIZE].iter().all(|byte| *byte == 0xAA));
    assert_eq!(&frame[PACKET_SIZE..PACKET_SIZE + 2], &[0x00, 0x00]);
    assert!(frame[PACKET_SIZE + 2..2 * PACKET_SIZE].iter().all(|byte| *byte == 0xCC));
    assert!(frame[2 * PACKET_SIZE..].iter().all(|byte| *byte == 0xBB));
    assert_eq!(bus.read_sizes, vec![PACKET_SIZE, FRAME_SIZE - PACKET_SIZE]);
}

#[test]
fn capture_passes_over_filler_with_low_bits_zero() {
    let payload = whole_frame();
    let mut stream = packet(0xF0, 0x00, 200);
    stream.extend(payload.clone());
    let mut bus = PlayedStream::of(stream);

    let frame = Lepton::new(RegisterBank::new(), &mut bus).read_frame().unwrap();

    assert_eq!(frame, payload);
    assert_eq!(bus.read_sizes, vec![PACKET_SIZE, PACKET_SIZE, FRAME_SIZE - PACKET_SIZE]);
}
