//! The command set of the monitor.
//!
//! Every command is a short ASCII frame: a letter, an address of eight
//! hexadecimal digits, for some commands a comma and a second number, and a
//! closing `#`. Bytes are written with two digits, words with eight. Read
//! commands are answered with raw bytes of a fixed width.
use vstd::prelude::*;
use byteorder::BigEndian;
use byteorder::ByteOrder;
use crate::eefc::EEFC_FCR;
use crate::eefc::compose;
use crate::eefc::fcr_word;
use crate::error::UpdateError;
use crate::hex::hex_field;
use crate::hex::push_hex;
use crate::link::Effect;
use crate::link::EffectView;
use crate::link::Outcome;
use crate::link::OutcomeView;

verus! {

/// The byte that closes every command frame.
pub const FRAME_END: u8 = 0x23;

/// The byte between the fields of a command frame.
pub const FIELD_BREAK: u8 = 0x2C;

/// One command of the monitor.
#[derive(Clone, Copy, Debug, PartialEq, Eq)]
pub enum MonitorCommand {
    /// Start executing at `address`.
    Jump { address: u32 },
    /// Store one byte.
    WriteByte { address: u32, byte: u8 },
    /// Store one word.
    WriteWord { address: u32, word: u32 },
    /// Load one byte.
    ReadByte { address: u32 },
    /// Load one word.
    ReadWord { address: u32 },
    /// Announce a block transfer of `length` bytes to `address`.
    BulkCopy { address: u32, length: u32 },
}

impl MonitorCommand {
    /// The letter that names the command.
    pub open spec fn letter(self) -> u8 {
        match self {
            MonitorCommand::Jump { .. } => 0x47,
            MonitorCommand::WriteByte { .. } => 0x4F,
            MonitorCommand::WriteWord { .. } => 0x57,
            MonitorCommand::ReadByte { .. } => 0x6F,
            MonitorCommand::ReadWord { .. } => 0x77,
            MonitorCommand::BulkCopy { .. } => 0x53,
        }
    }

    /// The address that the command is about.
    pub open spec fn address(self) -> u32 {
        match self {
            MonitorCommand::Jump { address } => address,
            MonitorCommand::WriteByte { address, .. } => address,
            MonitorCommand::WriteWord { address, .. } => address,
            MonitorCommand::ReadByte { address } => address,
            MonitorCommand::ReadWord { address } => address,
            MonitorCommand::BulkCopy { address, .. } => address,
        }
    }

    /// What stands between the address and the closing byte.
    pub open spec fn operand(self) -> Seq<u8> {
        match self {
            MonitorCommand::Jump { .. } => Seq::empty(),
            MonitorCommand::WriteByte { byte, .. } => seq![FIELD_BREAK] + hex_field(
                byte as nat,
                2,
                false,
            ),
            MonitorCommand::WriteWord { word, .. } => seq![FIELD_BREAK] + hex_field(
                word as nat,
                8,
                false,
            ),
            MonitorCommand::ReadByte { .. } => seq![FIELD_BREAK],
            MonitorCommand::ReadWord { .. } => seq![FIELD_BREAK],
            MonitorCommand::BulkCopy { length, .. } => seq![FIELD_BREAK] + hex_field(
                length as nat,
                8,
                true,
            ),
        }
    }

    /// The bytes of the command on the wire. Only the bulk copy writes its
    /// digits in upper case.
    pub open spec fn frame(self) -> Seq<u8> {
        seq![self.letter()] + hex_field(self.address() as nat, 8, self is BulkCopy)
            + self.operand() + seq![FRAME_END]
    }

    /// The number of raw bytes with which the monitor answers the command.
    pub open spec fn reply_width(self) -> usize {
        match self {
            MonitorCommand::Jump { .. } => 0,
            MonitorCommand::WriteByte { .. } => 0,
            MonitorCommand::WriteWord { .. } => 0,
            MonitorCommand::ReadByte { .. } => 1,
            MonitorCommand::ReadWord { .. } => 4,
            MonitorCommand::BulkCopy { .. } => 1,
        }
    }

    /// Writes the command out as its frame.
    pub fn encode(&self) -> (frame: Vec<u8>)
        ensures
            frame@ == self.frame(),
    {
        let mut frame: Vec<u8> = Vec::new();
        match *self {
            MonitorCommand::Jump { address } => {
                frame.push(0x47);
                push_hex(&mut frame, address, 8, false);
            },
            MonitorCommand::WriteByte { address, byte } => {
                frame.push(0x4F);
                push_hex(&mut frame, address, 8, false);
                frame.push(FIELD_BREAK);
                push_hex(&mut frame, byte as u32, 2, false);
            },
            MonitorCommand::WriteWord { address, word } => {
                frame.push(0x57);
                push_hex(&mut frame, address, 8, false);
                frame.push(FIELD_BREAK);
                push_hex(&mut frame, word, 8, false);
            },
            MonitorCommand::ReadByte { address } => {
                frame.push(0x6F);
                push_hex(&mut frame, address, 8, false);
                frame.push(FIELD_BREAK);
            },
            MonitorCommand::ReadWord { address } => {
                frame.push(0x77);
                push_hex(&mut frame, address, 8, false);
                frame.push(FIELD_BREAK);
            },
            MonitorCommand::BulkCopy { address, length } => {
                frame.push(0x53);
                push_hex(&mut frame, address, 8, true);
                frame.push(FIELD_BREAK);
                push_hex(&mut frame, length, 8, true);
            },
        }
        frame.push(FRAME_END);
        assert(frame@ =~= self.frame());
        frame
    }

    /// The width of the reply to the command.
    pub fn expected_width(&self) -> (width: usize)
        ensures
            width == self.reply_width(),
    {
        match *self {
            MonitorCommand::Jump { .. } => 0,
            MonitorCommand::WriteByte { .. } => 0,
            MonitorCommand::WriteWord { .. } => 0,
            MonitorCommand::ReadByte { .. } => 1,
            MonitorCommand::ReadWord { .. } => 4,
            MonitorCommand::BulkCopy { .. } => 1,
        }
    }
}

/// The number whose big-endian bytes are the first four of `bytes`.
pub open spec fn be_word(bytes: Seq<u8>) -> u32 {
    (bytes[0] as int * 0x100_0000 + bytes[1] as int * 0x1_0000 + bytes[2] as int * 0x100
        + bytes[3] as int) as u32
}

/// The byte that a reply to a byte read carries.
///
/// A failed exchange is an I/O failure. A reply that is not exactly one byte
/// wide, silence included, is a loss of synchronisation.
pub open spec fn byte_of(outcome: OutcomeView) -> Result<u8, UpdateError> {
    match outcome {
        OutcomeView::Reply(bytes) => if bytes.len() == 1 {
            Ok(bytes[0])
        } else {
            Err(UpdateError::ProtocolDesync)
        },
        OutcomeView::Failed(code) => Err(UpdateError::IoFailure { code }),
        OutcomeView::Completed => Err(UpdateError::ProtocolDesync),
    }
}

/// The word that a reply to a word read carries, most significant byte first.
///
/// A failed exchange is an I/O failure. A reply that is not exactly four bytes
/// wide, silence included, is a loss of synchronisation.
pub open spec fn word_of(outcome: OutcomeView) -> Result<u32, UpdateError> {
    match outcome {
        OutcomeView::Reply(bytes) => if bytes.len() == 4 {
            Ok(be_word(bytes))
        } else {
            Err(UpdateError::ProtocolDesync)
        },
        OutcomeView::Failed(code) => Err(UpdateError::IoFailure { code }),
        OutcomeView::Completed => Err(UpdateError::ProtocolDesync),
    }
}

/// What an exchange without a reply came to.
pub open spec fn done_of(outcome: OutcomeView) -> Result<(), UpdateError> {
    match outcome {
        OutcomeView::Completed => Ok(()),
        OutcomeView::Failed(code) => Err(UpdateError::IoFailure { code }),
        OutcomeView::Reply(_) => Err(UpdateError::ProtocolDesync),
    }
}

/// Calls `byteorder::BigEndian::read_u32`, which reads the first four bytes
/// of a slice as one number, most significant byte first, and panics on a
/// slice of fewer than four bytes.
#[verifier::external_body]
fn read_be_u32(bytes: &[u8]) -> (word: u32)
    requires
        bytes@.len() >= 4,
    ensures
        word == be_word(bytes@),
{
    BigEndian::read_u32(bytes)
}

/// The client side of the monitor protocol.
///
/// The client formats commands and reads replies; it holds no channel. Each
/// command is one [`Effect::Exchange`]: the frame is written in one piece and,
/// where the command has a reply, followed by exactly one bounded read of the
/// reply's width. A driver performs one exchange at a time, so no command is
/// issued while a reply is outstanding.
#[derive(Clone, Copy, Debug, PartialEq, Eq)]
pub struct SamBa {
    /// The bound on the wait for a reply, in milliseconds.
    pub reply_timeout_ms: u32,
}

impl SamBa {
    /// The exchange that carries `command`.
    pub open spec fn exchange(self, command: MonitorCommand) -> EffectView {
        EffectView::Exchange {
            frame: command.frame(),
            reply_width: command.reply_width(),
            timeout_ms: self.reply_timeout_ms,
        }
    }

    /// A client that waits at most `reply_timeout_ms` for a reply.
    pub fn new(reply_timeout_ms: u32) -> (client: SamBa)
        ensures
            client.reply_timeout_ms == reply_timeout_ms,
    {
        SamBa { reply_timeout_ms }
    }

    /// The exchange that carries `command`.
    pub fn issue(&self, command: MonitorCommand) -> (effect: Effect)
        ensures
            effect@ == self.exchange(command),
    {
        Effect::Exchange {
            frame: command.encode(),
            reply_width: command.expected_width(),
            timeout_ms: self.reply_timeout_ms,
        }
    }

    /// Starts execution at `address`.
    pub fn jump(&self, address: u32) -> (effect: Effect)
        ensures
            effect@ == self.exchange(MonitorCommand::Jump { address }),
    {
        self.issue(MonitorCommand::Jump { address })
    }

    /// Stores `byte` at `address`.
    pub fn write_byte(&self, address: u32, byte: u8) -> (effect: Effect)
        ensures
            effect@ == self.exchange(MonitorCommand::WriteByte { address, byte }),
    {
        self.issue(MonitorCommand::WriteByte { address, byte })
    }

    /// Stores `word` at `address`.
    pub fn write_word(&self, address: u32, word: u32) -> (effect: Effect)
        ensures
            effect@ == self.exchange(MonitorCommand::WriteWord { address, word }),
    {
        self.issue(MonitorCommand::WriteWord { address, word })
    }

    /// Hands a command to the flash controller: one word write of the composed
    /// command word to the command register.
    pub fn write_efc_fcr(&self, command: u8, arg: u32) -> (effect: Effect)
        ensures
            effect@ == self.exchange(
                MonitorCommand::WriteWord { address: EEFC_FCR, word: fcr_word(command, arg) },
            ),
    {
        let word: u32 = compose(command, arg);
        self.write_word(EEFC_FCR, word)
    }

    /// Asks for the byte at `address`. [`SamBa::byte_reply`] reads the answer.
    pub fn read_byte(&self, address: u32) -> (effect: Effect)
        ensures
            effect@ == self.exchange(MonitorCommand::ReadByte { address }),
    {
        self.issue(MonitorCommand::ReadByte { address })
    }

    /// Asks for the word at `address`. [`SamBa::word_reply`] reads the answer.
    pub fn read_word(&self, address: u32) -> (effect: Effect)
        ensures
            effect@ == self.exchange(MonitorCommand::ReadWord { address }),
    {
        self.issue(MonitorCommand::ReadWord { address })
    }

    /// Reads the answer to a byte read.
    pub fn byte_reply(outcome: &Outcome) -> (result: Result<u8, UpdateError>)
        ensures
            result == byte_of(outcome@),
    {
        match outcome {
            Outcome::Reply(bytes) => {
                if bytes.len() == 1 {
                    Ok(bytes[0])
                } else {
                    Err(UpdateError::ProtocolDesync)
                }
            },
            Outcome::Failed(code) => Err(UpdateError::IoFailure { code: *code }),
            Outcome::Completed => Err(UpdateError::ProtocolDesync),
        }
    }

    /// Reads the answer to a word read.
    pub fn word_reply(outcome: &Outcome) -> (result: Result<u32, UpdateError>)
        ensures
            result == word_of(outcome@),
    {
        match outcome {
            Outcome::Reply(bytes) => {
                if bytes.len() == 4 {
                    Ok(read_be_u32(bytes.as_slice()))
                } else {
                    Err(UpdateError::ProtocolDesync)
                }
            },
            Outcome::Failed(code) => Err(UpdateError::IoFailure { code: *code }),
            Outcome::Completed => Err(UpdateError::ProtocolDesync),
        }
    }

    /// Reads the outcome of a command that has no reply.
    pub fn done_reply(outcome: &Outcome) -> (result: Result<(), UpdateError>)
        ensures
            result == done_of(outcome@),
    {
        match outcome {
            Outcome::Completed => Ok(()),
            Outcome::Failed(code) => Err(UpdateError::IoFailure { code: *code }),
            Outcome::Reply(_) => Err(UpdateError::ProtocolDesync),
        }
    }
}

} // verus!
