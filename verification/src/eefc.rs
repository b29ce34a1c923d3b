//! The command word of the enhanced embedded flash controller.
//!
//! A command is one 32-bit write to the command register of the controller.
//! The word has three fields: the command in bits 0 to 7, its argument in bits
//! 8 to 23 and a fixed key in bits 24 to 31. The controller ignores a word
//! whose key is wrong.
use vstd::prelude::*;

verus! {

/// Base address of the flash controller.
pub const EEFC_BASE: u32 = 0x400E_0A00;

/// Address of the command register.
pub const EEFC_FCR: u32 = 0x400E_0A04;

/// Address of the status register.
pub const EEFC_FSR: u32 = 0x400E_0A08;

/// The bit of the status register that is set while the controller is ready.
pub const EEFC_FSR_FRDY: u32 = 0x0000_0001;

/// The key that unlocks the command register.
pub const FKEY: u8 = 0x5A;

/// Bit position of the argument field.
pub const FARG_POS: u32 = 8;

/// Bit position of the key field.
pub const FKEY_POS: u32 = 24;

/// Mask of the argument field.
pub const FARG_MASK: u32 = 0x00FF_FF00;

/// Opcode that writes the latched page.
pub const FCMD_WRITE_PAGE: u8 = 0x01;

/// Opcode that erases pages.
pub const FCMD_ERASE_PAGE: u8 = 0x07;

/// Opcode that sets a lock bit.
pub const FCMD_SET_LOCK: u8 = 0x08;

/// Opcode that clears a lock bit.
pub const FCMD_CLEAR_LOCK: u8 = 0x09;

/// The command word for an opcode and an argument. An argument wider than its
/// field loses its upper bits.
pub open spec fn fcr_word(command: u8, arg: u32) -> u32 {
    ((FKEY as u32) << FKEY_POS) | ((arg << FARG_POS) & FARG_MASK) | (command as u32)
}

/// The key field of a command word.
pub open spec fn key_field(word: u32) -> u8 {
    (word >> 24) as u8
}

/// The argument field of a command word.
pub open spec fn argument_field(word: u32) -> u16 {
    ((word >> 8) & 0xFFFF) as u16
}

/// The command field of a command word.
pub open spec fn opcode_field(word: u32) -> u8 {
    (word & 0xFF) as u8
}

/// Each field of a composed word holds what went into it.
pub proof fn lemma_fcr_word_fields(command: u8, arg: u32)
    ensures
        key_field(fcr_word(command, arg)) == FKEY,
        opcode_field(fcr_word(command, arg)) == command,
        argument_field(fcr_word(command, arg)) == (arg & 0xFFFF) as u16,
        arg <= 0xFFFF ==> argument_field(fcr_word(command, arg)) == arg,
{
    let word = fcr_word(command, arg);
    assert((((0x5Au8 as u32) << 24u32) | ((arg << 8u32) & 0x00FF_FF00u32) | (command as u32)) >> 24
        == 0x5Au32) by (bit_vector);
    assert(((((0x5Au8 as u32) << 24u32) | ((arg << 8u32) & 0x00FF_FF00u32) | (command as u32))
        & 0xFF) == command as u32) by (bit_vector);
    assert((((((0x5Au8 as u32) << 24u32) | ((arg << 8u32) & 0x00FF_FF00u32) | (command as u32))
        >> 8) & 0xFFFF) == arg & 0xFFFF) by (bit_vector);
    assert(arg <= 0xFFFF ==> arg & 0xFFFF == arg) by (bit_vector);
    assert(arg & 0xFFFF <= 0xFFFF) by (bit_vector);
}

/// Composes the command word for an opcode and an argument.
pub fn compose(command: u8, arg: u32) -> (word: u32)
    ensures
        word == fcr_word(command, arg),
        key_field(word) == FKEY,
        opcode_field(word) == command,
        argument_field(word) == (arg & 0xFFFF) as u16,
{
    proof {
        lemma_fcr_word_fields(command, arg);
    }
    ((FKEY as u32) << FKEY_POS) | ((arg << FARG_POS) & FARG_MASK) | (command as u32)
}

/// One operation of the flash controller on a page.
#[derive(Clone, Copy, Debug, PartialEq, Eq)]
pub enum FlashCommand {
    ErasePage(u16),
    WritePage(u16),
    SetLock(u16),
    ClearLock(u16),
}

impl FlashCommand {
    /// The opcode of the operation.
    pub open spec fn opcode_spec(self) -> u8 {
        match self {
            FlashCommand::ErasePage(_) => FCMD_ERASE_PAGE,
            FlashCommand::WritePage(_) => FCMD_WRITE_PAGE,
            FlashCommand::SetLock(_) => FCMD_SET_LOCK,
            FlashCommand::ClearLock(_) => FCMD_CLEAR_LOCK,
        }
    }

    /// The page that the operation is about.
    pub open spec fn page_spec(self) -> u16 {
        match self {
            FlashCommand::ErasePage(page) => page,
            FlashCommand::WritePage(page) => page,
            FlashCommand::SetLock(page) => page,
            FlashCommand::ClearLock(page) => page,
        }
    }

    /// The command word of the operation.
    pub open spec fn word_spec(self) -> u32 {
        fcr_word(self.opcode_spec(), self.page_spec() as u32)
    }

    /// The opcode of the operation.
    #[verifier::when_used_as_spec(opcode_spec)]
    pub fn opcode(self) -> (code: u8)
        ensures
            code == self.opcode_spec(),
    {
        match self {
            FlashCommand::ErasePage(_) => FCMD_ERASE_PAGE,
            FlashCommand::WritePage(_) => FCMD_WRITE_PAGE,
            FlashCommand::SetLock(_) => FCMD_SET_LOCK,
            FlashCommand::ClearLock(_) => FCMD_CLEAR_LOCK,
        }
    }

    /// The page that the operation is about.
    #[verifier::when_used_as_spec(page_spec)]
    pub fn page(self) -> (index: u16)
        ensures
            index == self.page_spec(),
    {
        match self {
            FlashCommand::ErasePage(page) => page,
            FlashCommand::WritePage(page) => page,
            FlashCommand::SetLock(page) => page,
            FlashCommand::ClearLock(page) => page,
        }
    }

    /// The command word of the operation: the key in the top byte, the opcode
    /// in the command field and the page in the argument field.
    #[verifier::when_used_as_spec(word_spec)]
    pub fn word(self) -> (word: u32)
        ensures
            word == self.word_spec(),
            key_field(word) == FKEY,
            opcode_field(word) == self.opcode_spec(),
            argument_field(word) == self.page_spec(),
    {
        proof {
            lemma_fcr_word_fields(self.opcode_spec(), self.page_spec() as u32);
        }
        compose(self.opcode(), self.page() as u32)
    }
}

/// For every page, the word of each operation carries the key in its top byte,
/// the opcode of the operation in its command field and the page in its
/// argument field.
pub proof fn lemma_command_word_fields(command: FlashCommand)
    ensures
        key_field(command.word_spec()) == FKEY,
        opcode_field(command.word_spec()) == command.opcode_spec(),
        argument_field(command.word_spec()) == command.page_spec(),
        command is ErasePage ==> opcode_field(command.word_spec()) == FCMD_ERASE_PAGE,
{
    lemma_fcr_word_fields(command.opcode_spec(), command.page_spec() as u32);
}

} // verus!
