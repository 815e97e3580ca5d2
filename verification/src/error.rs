//! The driver's error type.

use vstd::prelude::*;
use vstd::string::StringExecFns;

verus! {

/// Why a driver operation failed, tagged by where the failure arose. The wrapped
/// values are never looked into. The driver wraps an error of the command channel as
/// the register-interface service reported it; of an error of the streaming channel
/// it wraps the kind, an `embedded_hal::spi::ErrorKind`, and not the bus's own error
/// value.
#[derive(Debug)]
pub enum LeptonError<I2C, SPI> {
    /// The streaming channel failed with the wrapped error.
    Spi(SPI),
    /// The command channel failed with the wrapped error.
    I2c(I2C),
    /// A capture spent its whole seek limit without meeting the first packet of a frame.
    NoFrameStart,
}

/// `text` begins with `tag`.
pub open spec fn begins_with(text: Seq<char>, tag: Seq<char>) -> bool {
    tag.len() <= text.len() && text.subrange(0, tag.len() as int) == tag
}

/// Renders `error` as its `Debug` impl prints it, with std's `format!`. The text is
/// the impl's own, so nothing is claimed of it.
#[verifier::external_body]
fn debug_text<E: core::fmt::Debug>(error: &E) -> (text: String) {
    format!("{:?}", error)
}

/// Puts `rendering` behind `tag`.
pub fn tag_text(tag: &str, rendering: &str) -> (text: String)
    ensures
        text@ == tag@ + rendering@,
        begins_with(text@, tag@),
{
    let text = tag.to_owned().concat(rendering);
    assert(text@.subrange(0, tag@.len() as int) =~= tag@);
    text
}

impl<I2C, SPI> LeptonError<I2C, SPI> {
    /// How the text of the error begins: for a transport error the tag of its channel,
    /// for `NoFrameStart` all there is to say.
    pub open spec fn tag(&self) -> Seq<char> {
        match self {
            LeptonError::Spi(_) => "SPI Error: "@,
            LeptonError::I2c(_) => "I2C Error: "@,
            LeptonError::NoFrameStart => "No frame start within the seek limit"@,
        }
    }

    /// The text of the error, given how the error that it wraps is rendered: the tag
    /// and behind it `rendering`.
    pub fn text_with(&self, rendering: &str) -> (text: String)
        ensures
            text@ == self.tag() + rendering@,
            begins_with(text@, self.tag()),
    {
        match self {
            LeptonError::Spi(_) => tag_text("SPI Error: ", rendering),
            LeptonError::I2c(_) => tag_text("I2C Error: ", rendering),
            LeptonError::NoFrameStart => tag_text("No frame start within the seek limit", rendering),
        }
    }
}

impl<I2C: core::fmt::Debug, SPI: core::fmt::Debug> LeptonError<I2C, SPI> {
    /// The error in words: the tag of the channel it came from, and behind the tag the
    /// wrapped error as its `Debug` impl prints it. `NoFrameStart` wraps nothing and
    /// has nothing behind its tag.
    pub fn message(&self) -> (text: String)
        ensures
            begins_with(text@, self.tag()),
            self is NoFrameStart ==> text@ == self.tag(),
    {
        match self {
            LeptonError::Spi(e) => self.text_with(debug_text(e).as_str()),
            LeptonError::I2c(e) => self.text_with(debug_text(e).as_str()),
            LeptonError::NoFrameStart => {
                let text = self.text_with("");
                assert(text@ =~= self.tag()) by {
                    reveal_strlit("");
                }
                text
            },
        }
    }
}

impl<I2C, SPI> LeptonError<I2C, SPI> {
    /// A command-channel reply as the driver hands it on: a value passes untouched, a
    /// transport error is tagged as coming from the command channel.
    pub open spec fn control_reply<T>(reply: Result<T, I2C>) -> Result<T, Self> {
        match reply {
            Ok(value) => Ok(value),
            Err(e) => Err(LeptonError::I2c(e)),
        }
    }

    /// The command-channel reply that `result` hands on, if it hands one on.
    pub open spec fn control_cause<T>(result: Result<T, Self>) -> Option<Result<T, I2C>> {
        match result {
            Ok(value) => Some(Ok(value)),
            Err(LeptonError::I2c(e)) => Some(Err(e)),
            Err(_) => None,
        }
    }

    /// A streaming-channel outcome as the driver hands it on: a value passes untouched,
    /// a transport error is tagged as coming from the streaming channel.
    pub open spec fn stream_reply<T>(outcome: Result<T, SPI>) -> Result<T, Self> {
        match outcome {
            Ok(value) => Ok(value),
            Err(e) => Err(LeptonError::Spi(e)),
        }
    }

    /// A result hands on a command-channel reply exactly when it is that reply with its
    /// error tagged: a failure of the command channel comes out as `I2c` with the same
    /// error inside, and nothing else does.
    pub proof fn lemma_control_cause<T>(result: Result<T, Self>, reply: Result<T, I2C>)
        ensures
            Self::control_cause(result) == Some(reply) <==> result == Self::control_reply(reply),
            reply matches Err(e) ==> Self::control_reply(reply) == Err::<T, Self>(
                LeptonError::I2c(e),
            ),
    {
    }

    /// Tags the error of a command-channel reply.
    pub fn from_control<T>(reply: Result<T, I2C>) -> (result: Result<T, Self>)
        ensures
            result == Self::control_reply(reply),
            Self::control_cause(result) == Some(reply),
    {
        match reply {
            Ok(value) => Ok(value),
            Err(e) => Err(LeptonError::I2c(e)),
        }
    }

    /// Tags the error of a streaming-channel outcome.
    pub fn from_stream<T>(outcome: Result<T, SPI>) -> (result: Result<T, Self>)
        ensures
            result == Self::stream_reply(outcome),
    {
        match outcome {
            Ok(value) => Ok(value),
            Err(e) => Err(LeptonError::Spi(e)),
        }
    }
}

} // verus!
