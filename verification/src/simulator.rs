//! A model of the memory commands of the monitor.
//!
//! The model says how a monitor answers the frames of the client: it keeps a
//! memory of bytes, stores what write commands carry and answers read commands
//! from what it has stored. Words lie in memory with their most significant
//! byte first. [`SimulatedMonitor`] is the same model as a value that a test
//! can talk to.
use vstd::prelude::*;
use vstd::slice::slice_subrange;
use crate::error::UpdateError;
use crate::hex::hex_field;
use crate::hex::hex_value;
use crate::hex::lemma_hex_field_len;
use crate::hex::lemma_hex_value_of_field;
use crate::hex::lemma_low_digits_u32;
use crate::hex::lemma_low_digits_u8;
use crate::hex::parse_hex;
use crate::hex::pow16;
use crate::link::OutcomeView;
use crate::mode::WAKE;
use crate::mode::banner;
use crate::monitor::FIELD_BREAK;
use crate::monitor::FRAME_END;
use crate::monitor::MonitorCommand;
use crate::monitor::be_word;
use crate::monitor::byte_of;
use crate::monitor::word_of;
use crate::transfer::READY;

verus! {

/// The command that `frame` carries, if it is the frame of a command.
pub open spec fn parse_command(frame: Seq<u8>) -> Option<MonitorCommand> {
    if frame.len() == 10 && frame[0] == 0x47 && frame[9] == FRAME_END {
        match hex_value(frame.subrange(1, 9), false) {
            Some(address) => Some(MonitorCommand::Jump { address: address as u32 }),
            None => None,
        }
    } else if frame.len() == 13 && frame[0] == 0x4F && frame[9] == FIELD_BREAK && frame[12]
        == FRAME_END {
        match (hex_value(frame.subrange(1, 9), false), hex_value(frame.subrange(10, 12), false)) {
            (Some(address), Some(byte)) => Some(
                MonitorCommand::WriteByte { address: address as u32, byte: byte as u8 },
            ),
            _ => None,
        }
    } else if frame.len() == 19 && frame[0] == 0x57 && frame[9] == FIELD_BREAK && frame[18]
        == FRAME_END {
        match (hex_value(frame.subrange(1, 9), false), hex_value(frame.subrange(10, 18), false)) {
            (Some(address), Some(word)) => Some(
                MonitorCommand::WriteWord { address: address as u32, word: word as u32 },
            ),
            _ => None,
        }
    } else if frame.len() == 11 && frame[0] == 0x6F && frame[9] == FIELD_BREAK && frame[10]
        == FRAME_END {
        match hex_value(frame.subrange(1, 9), false) {
            Some(address) => Some(MonitorCommand::ReadByte { address: address as u32 }),
            None => None,
        }
    } else if frame.len() == 11 && frame[0] == 0x77 && frame[9] == FIELD_BREAK && frame[10]
        == FRAME_END {
        match hex_value(frame.subrange(1, 9), false) {
            Some(address) => Some(MonitorCommand::ReadWord { address: address as u32 }),
            None => None,
        }
    } else if frame.len() == 19 && frame[0] == 0x53 && frame[9] == FIELD_BREAK && frame[18]
        == FRAME_END {
        match (hex_value(frame.subrange(1, 9), true), hex_value(frame.subrange(10, 18), true)) {
            (Some(address), Some(length)) => Some(
                MonitorCommand::BulkCopy { address: address as u32, length: length as u32 },
            ),
            _ => None,
        }
    } else {
        None
    }
}

/// The byte at `address`: what was stored there last, or zero.
pub open spec fn load(memory: Map<u32, u8>, address: u32) -> u8 {
    if memory.dom().contains(address) {
        memory[address]
    } else {
        0
    }
}

/// The address `by` bytes after `address`. Addresses wrap around.
pub open spec fn offset(address: u32, by: nat) -> u32 {
    ((address + by) % 0x1_0000_0000) as u32
}

/// The four bytes of a word, most significant first.
pub open spec fn word_bytes(word: u32) -> Seq<u8> {
    seq![
        (word / 0x100_0000) as u8,
        ((word / 0x1_0000) % 256) as u8,
        ((word / 0x100) % 256) as u8,
        (word % 256) as u8,
    ]
}

/// The memory after `word` was stored at `address`.
pub open spec fn store_word(memory: Map<u32, u8>, address: u32, word: u32) -> Map<u32, u8> {
    memory.insert(address, word_bytes(word)[0]).insert(
        offset(address, 1),
        word_bytes(word)[1],
    ).insert(offset(address, 2), word_bytes(word)[2]).insert(
        offset(address, 3),
        word_bytes(word)[3],
    )
}

/// The four bytes from `address` on.
pub open spec fn load_word(memory: Map<u32, u8>, address: u32) -> Seq<u8> {
    seq![
        load(memory, address),
        load(memory, offset(address, 1)),
        load(memory, offset(address, 2)),
        load(memory, offset(address, 3)),
    ]
}

/// What the monitor does with a frame: its memory afterwards, and the bytes
/// with which it answers.
///
/// The wake byte is answered with the banner. A write command changes the
/// memory and has no answer. A read command is answered from the memory. The
/// announcement of a bulk copy is answered with [`READY`]. Anything else is
/// passed over in silence.
pub open spec fn respond(memory: Map<u32, u8>, frame: Seq<u8>) -> (Map<u32, u8>, Seq<u8>) {
    if frame == seq![WAKE] {
        (memory, banner())
    } else {
        match parse_command(frame) {
            Some(MonitorCommand::WriteByte { address, byte }) => (
                memory.insert(address, byte),
                Seq::empty(),
            ),
            Some(MonitorCommand::WriteWord { address, word }) => (
                store_word(memory, address, word),
                Seq::empty(),
            ),
            Some(MonitorCommand::ReadByte { address }) => (memory, seq![load(memory, address)]),
            Some(MonitorCommand::ReadWord { address }) => (memory, load_word(memory, address)),
            Some(MonitorCommand::BulkCopy { .. }) => (memory, seq![READY]),
            _ => (memory, Seq::empty()),
        }
    }
}

/// The monitor reads every frame of the client as the command that it was
/// written from.
pub proof fn lemma_parse_frame(command: MonitorCommand)
    ensures
        parse_command(command.frame()) == Some(command),
        command.frame() != seq![WAKE],
{
    let frame = command.frame();
    let upper = command is BulkCopy;
    let address = command.address();
    lemma_hex_field_len(address as nat, 8, upper);
    lemma_hex_value_of_field(address as nat, 8, upper);
    lemma_low_digits_u32(address);
    assert(frame.subrange(1, 9) =~= hex_field(address as nat, 8, upper));
    match command {
        MonitorCommand::WriteByte { byte, .. } => {
            lemma_hex_field_len(byte as nat, 2, false);
            lemma_hex_value_of_field(byte as nat, 2, false);
            lemma_low_digits_u8(byte);
            assert(frame.subrange(10, 12) =~= hex_field(byte as nat, 2, false));
        },
        MonitorCommand::WriteWord { word, .. } => {
            lemma_hex_field_len(word as nat, 8, false);
            lemma_hex_value_of_field(word as nat, 8, false);
            lemma_low_digits_u32(word);
            assert(frame.subrange(10, 18) =~= hex_field(word as nat, 8, false));
        },
        MonitorCommand::BulkCopy { length, .. } => {
            lemma_hex_field_len(length as nat, 8, true);
            lemma_hex_value_of_field(length as nat, 8, true);
            lemma_low_digits_u32(length);
            assert(frame.subrange(10, 18) =~= hex_field(length as nat, 8, true));
        },
        _ => {},
    }
    assert(frame.len() > 1);
    assert(seq![WAKE].len() == 1);
}

/// The bytes of a word, read most significant first, are the word.
pub proof fn lemma_word_bytes(word: u32)
    ensures
        word_bytes(word).len() == 4,
        be_word(word_bytes(word)) == word,
{
}

/// A word that is written is read back unchanged: for every memory, address
/// and word, a monitor that has taken the frame of the write answers the
/// frame of the read at the same address with bytes that the client reads as
/// that word. The write itself has no answer, and the read changes nothing.
pub proof fn lemma_word_round_trip(memory: Map<u32, u8>, address: u32, word: u32)
    ensures
        ({
            let written = respond(memory, MonitorCommand::WriteWord { address, word }.frame());
            let read = respond(written.0, MonitorCommand::ReadWord { address }.frame());
            &&& written.1 == Seq::<u8>::empty()
            &&& read.0 == written.0
            &&& word_of(OutcomeView::Reply(read.1)) == Ok::<u32, UpdateError>(word)
        }),
{
    lemma_parse_frame(MonitorCommand::WriteWord { address, word });
    lemma_parse_frame(MonitorCommand::ReadWord { address });
    lemma_word_bytes(word);
    let stored = store_word(memory, address, word);
    assert(offset(address, 1) != address);
    assert(offset(address, 2) != address && offset(address, 2) != offset(address, 1));
    assert(offset(address, 3) != address && offset(address, 3) != offset(address, 1) && offset(
        address,
        3,
    ) != offset(address, 2));
    assert(load_word(stored, address) =~= word_bytes(word));
}

/// A byte that is written is read back unchanged, in the same way.
pub proof fn lemma_byte_round_trip(memory: Map<u32, u8>, address: u32, byte: u8)
    ensures
        ({
            let written = respond(memory, MonitorCommand::WriteByte { address, byte }.frame());
            let read = respond(written.0, MonitorCommand::ReadByte { address }.frame());
            &&& written.1 == Seq::<u8>::empty()
            &&& read.0 == written.0
            &&& byte_of(OutcomeView::Reply(read.1)) == Ok::<u8, UpdateError>(byte)
        }),
{
    lemma_parse_frame(MonitorCommand::WriteByte { address, byte });
    lemma_parse_frame(MonitorCommand::ReadByte { address });
}

/// The memory that a list of stores leaves behind: a later store to an
/// address replaces an earlier one.
pub open spec fn memory_of(cells: Seq<(u32, u8)>) -> Map<u32, u8>
    decreases cells.len(),
{
    if cells.len() == 0 {
        Map::empty()
    } else {
        memory_of(cells.drop_last()).insert(cells.last().0, cells.last().1)
    }
}

/// A monitor that lives in memory.
#[derive(Debug)]
pub struct SimulatedMonitor {
    cells: Vec<(u32, u8)>,
}

impl View for SimulatedMonitor {
    type V = Map<u32, u8>;

    closed spec fn view(&self) -> Map<u32, u8> {
        memory_of(self.cells@)
    }
}

/// The number in the bytes of `frame` from `from` up to `to`.
fn field(frame: &[u8], from: usize, to: usize, upper: bool) -> (value: Option<u32>)
    requires
        from <= to <= frame@.len(),
        to - from <= 8,
    ensures
        match value {
            Some(v) => hex_value(frame@.subrange(from as int, to as int), upper) == Some(v as nat)
                && v < pow16((to - from) as nat),
            None => hex_value(frame@.subrange(from as int, to as int), upper) is None,
        },
{
    parse_hex(slice_subrange(frame, from, to), upper)
}

/// The command that `frame` carries, if it is the frame of a command.
pub fn decode(frame: &[u8]) -> (command: Option<MonitorCommand>)
    ensures
        command == parse_command(frame@),
{
    let n: usize = frame.len();
    if n == 10 && frame[0] == 0x47 && frame[9] == FRAME_END {
        match field(frame, 1, 9, false) {
            Some(address) => Some(MonitorCommand::Jump { address }),
            None => None,
        }
    } else if n == 13 && frame[0] == 0x4F && frame[9] == FIELD_BREAK && frame[12] == FRAME_END {
        let address = field(frame, 1, 9, false);
        let byte = field(frame, 10, 12, false);
        match (address, byte) {
            (Some(address), Some(byte)) => {
                proof {
                    reveal_with_fuel(pow16, 3);
                }
                Some(MonitorCommand::WriteByte { address, byte: byte as u8 })
            },
            _ => None,
        }
    } else if n == 19 && frame[0] == 0x57 && frame[9] == FIELD_BREAK && frame[18] == FRAME_END {
        let address = field(frame, 1, 9, false);
        let word = field(frame, 10, 18, false);
        match (address, word) {
            (Some(address), Some(word)) => Some(MonitorCommand::WriteWord { address, word }),
            _ => None,
        }
    } else if n == 11 && frame[0] == 0x6F && frame[9] == FIELD_BREAK && frame[10] == FRAME_END {
        match field(frame, 1, 9, false) {
            Some(address) => Some(MonitorCommand::ReadByte { address }),
            None => None,
        }
    } else if n == 11 && frame[0] == 0x77 && frame[9] == FIELD_BREAK && frame[10] == FRAME_END {
        match field(frame, 1, 9, false) {
            Some(address) => Some(MonitorCommand::ReadWord { address }),
            None => None,
        }
    } else if n == 19 && frame[0] == 0x53 && frame[9] == FIELD_BREAK && frame[18] == FRAME_END {
        let address = field(frame, 1, 9, true);
        let length = field(frame, 10, 18, true);
        match (address, length) {
            (Some(address), Some(length)) => Some(MonitorCommand::BulkCopy { address, length }),
            _ => None,
        }
    } else {
        None
    }
}

impl SimulatedMonitor {
    /// A monitor whose memory holds zeros.
    pub fn new() -> (monitor: SimulatedMonitor)
        ensures
            monitor@ == Map::<u32, u8>::empty(),
    {
        SimulatedMonitor { cells: Vec::new() }
    }

    /// The byte at `address`.
    pub fn peek(&self, address: u32) -> (byte: u8)
        ensures
            byte == load(self@, address),
    {
        let mut byte: u8 = 0;
        let mut i: usize = 0;
        while i < self.cells.len()
            invariant
                i <= self.cells@.len(),
                byte == load(memory_of(self.cells@.take(i as int)), address),
            decreases self.cells@.len() - i,
        {
            proof {
                assert(self.cells@.take(i as int + 1).drop_last() =~= self.cells@.take(i as int));
                assert(self.cells@.take(i as int + 1).last() == self.cells@[i as int]);
            }
            if self.cells[i].0 == address {
                byte = self.cells[i].1;
            }
            i = i + 1;
        }
        assert(self.cells@.take(i as int) =~= self.cells@);
        byte
    }

    /// Stores `byte` at `address`.
    pub fn poke(&mut self, address: u32, byte: u8)
        ensures
            final(self)@ == old(self)@.insert(address, byte),
    {
        self.cells.push((address, byte));
        assert(self.cells@.drop_last() =~= old(self).cells@);
    }

    /// The address `by` bytes after `address`.
    fn after(address: u32, by: u8) -> (next: u32)
        ensures
            next == offset(address, by as nat),
    {
        ((address as u64 + by as u64) % 0x1_0000_0000) as u32
    }

    /// Takes a frame and answers it.
    pub fn serve(&mut self, frame: &[u8]) -> (reply: Vec<u8>)
        ensures
            (final(self)@, reply@) == respond(old(self)@, frame@),
    {
        let mut reply: Vec<u8> = Vec::new();
        if frame.len() == 1 && frame[0] == WAKE {
            reply.push(0x0A);
            reply.push(0x0D);
            reply.push(0x3E);
            assert(frame@ =~= seq![WAKE]);
            assert(reply@ =~= banner());
            return reply;
        }
        assert(frame@ != seq![WAKE]) by {
            if frame@ == seq![WAKE] {
                assert(seq![WAKE].len() == 1 && seq![WAKE][0] == WAKE);
            }
        }
        match decode(frame) {
            Some(MonitorCommand::WriteByte { address, byte }) => {
                self.poke(address, byte);
            },
            Some(MonitorCommand::WriteWord { address, word }) => {
                self.poke(address, (word / 0x100_0000) as u8);
                self.poke(Self::after(address, 1), ((word / 0x1_0000) % 256) as u8);
                self.poke(Self::after(address, 2), ((word / 0x100) % 256) as u8);
                self.poke(Self::after(address, 3), (word % 256) as u8);
            },
            Some(MonitorCommand::ReadByte { address }) => {
                reply.push(self.peek(address));
                assert(reply@ =~= seq![load(self@, address)]);
            },
            Some(MonitorCommand::ReadWord { address }) => {
                reply.push(self.peek(address));
                reply.push(self.peek(Self::after(address, 1)));
                reply.push(self.peek(Self::after(address, 2)));
                reply.push(self.peek(Self::after(address, 3)));
                assert(reply@ =~= load_word(self@, address));
            },
            Some(MonitorCommand::BulkCopy { .. }) => {
                reply.push(READY);
                assert(reply@ =~= seq![READY]);
            },
            _ => {},
        }
        reply
    }
}

} // verus!
