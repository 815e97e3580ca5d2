//! Driver for a thermal camera module with two transports: a register-oriented command
//! channel and a streaming channel that delivers each video frame as a run of
//! fixed-size packets.
//!
//! [`Lepton`] offers every device setting as a typed call on the command channel and
//! captures whole frames from the stream. Failures of either transport come back as one
//! [`LeptonError`], tagged by the channel they came from.

pub mod bank;
pub mod bus;
pub mod camera;
pub mod capture;
pub mod control;
pub mod error;
pub mod packet;

pub use bank::{LinkDown, RegisterBank};
pub use bus::{BusRead, Stream};
pub use camera::Lepton;
pub use control::{RegisterInterface, Setting, StatusFlag};
pub use error::LeptonError;
pub use packet::{FRAME_SIZE, PACKETS_PER_FRAME, PACKET_SIZE};
