//! The dispatch table: which instruction and which addressing mode each of
//! the 256 opcode bytes stands for.

use vstd::prelude::*;
use crate::addressing::AddressingModes;

verus! {

/// The instructions that the core executes.
#[derive(Clone, Copy, Debug, PartialEq, Eq, Structural)]
pub enum Mnemonic {
    /// Break: stop the run.
    BRK,
    /// Increment index register X.
    INX,
    /// Load the accumulator from memory.
    LDA,
    /// Store the accumulator to memory.
    STA,
    /// Transfer the accumulator to index register X.
    TAX,
}

/// One slot of the dispatch table.
#[derive(Clone, Copy, Debug, PartialEq, Eq, Structural)]
pub struct OpcodeEntry {
    pub mnemonic: Mnemonic,
    pub mode: AddressingModes,
}

impl Mnemonic {
    /// Whether the processor has this instruction in `mode`.
    ///
    /// A load takes its operand in any of eight modes; a store in the same
    /// ones but for the immediate, since a value cannot be stored into an
    /// operand; the other instructions have no operand at all.
    pub open spec fn spec_supports(self, mode: AddressingModes) -> bool {
        match self {
            Mnemonic::LDA => mode != AddressingModes::NoneAddressing && mode
                != AddressingModes::ZeroPage_Y,
            Mnemonic::STA => mode != AddressingModes::NoneAddressing && mode
                != AddressingModes::ZeroPage_Y && mode != AddressingModes::Immediate,
            _ => mode == AddressingModes::NoneAddressing,
        }
    }

    /// Whether the processor has this instruction in `mode`.
    #[verifier::when_used_as_spec(spec_supports)]
    pub fn supports(self, mode: AddressingModes) -> (ok: bool)
        ensures
            ok == self.spec_supports(mode),
    {
        match self {
            Mnemonic::LDA => mode != AddressingModes::NoneAddressing && mode
                != AddressingModes::ZeroPage_Y,
            Mnemonic::STA => mode != AddressingModes::NoneAddressing && mode
                != AddressingModes::ZeroPage_Y && mode != AddressingModes::Immediate,
            _ => mode == AddressingModes::NoneAddressing,
        }
    }
}

/// The table itself: the entry of each opcode byte, `None` where the byte
/// stands for no implemented instruction.
pub open spec fn spec_decode(opcode: u8) -> Option<OpcodeEntry> {
    match opcode {
        0x00 => Some(
            OpcodeEntry { mnemonic: Mnemonic::BRK, mode: AddressingModes::NoneAddressing },
        ),
        0xE8 => Some(
            OpcodeEntry { mnemonic: Mnemonic::INX, mode: AddressingModes::NoneAddressing },
        ),
        0xAA => Some(
            OpcodeEntry { mnemonic: Mnemonic::TAX, mode: AddressingModes::NoneAddressing },
        ),
        0xA9 => Some(OpcodeEntry { mnemonic: Mnemonic::LDA, mode: AddressingModes::Immediate }),
        0xA5 => Some(OpcodeEntry { mnemonic: Mnemonic::LDA, mode: AddressingModes::ZeroPage }),
        0xB5 => Some(OpcodeEntry { mnemonic: Mnemonic::LDA, mode: AddressingModes::ZeroPage_X }),
        0xAD => Some(OpcodeEntry { mnemonic: Mnemonic::LDA, mode: AddressingModes::Absolute }),
        0xBD => Some(OpcodeEntry { mnemonic: Mnemonic::LDA, mode: AddressingModes::Absolute_X }),
        0xB9 => Some(OpcodeEntry { mnemonic: Mnemonic::LDA, mode: AddressingModes::Absolute_Y }),
        0xA1 => Some(OpcodeEntry { mnemonic: Mnemonic::LDA, mode: AddressingModes::Indirect_X }),
        0xB1 => Some(OpcodeEntry { mnemonic: Mnemonic::LDA, mode: AddressingModes::Indirect_Y }),
        0x85 => Some(OpcodeEntry { mnemonic: Mnemonic::STA, mode: AddressingModes::ZeroPage }),
        0x95 => Some(OpcodeEntry { mnemonic: Mnemonic::STA, mode: AddressingModes::ZeroPage_X }),
        0x8D => Some(OpcodeEntry { mnemonic: Mnemonic::STA, mode: AddressingModes::Absolute }),
        0x9D => Some(OpcodeEntry { mnemonic: Mnemonic::STA, mode: AddressingModes::Absolute_X }),
        0x99 => Some(OpcodeEntry { mnemonic: Mnemonic::STA, mode: AddressingModes::Absolute_Y }),
        0x81 => Some(OpcodeEntry { mnemonic: Mnemonic::STA, mode: AddressingModes::Indirect_X }),
        0x91 => Some(OpcodeEntry { mnemonic: Mnemonic::STA, mode: AddressingModes::Indirect_Y }),
        _ => None,
    }
}

/// Looks an opcode byte up in the dispatch table.
#[verifier::when_used_as_spec(spec_decode)]
pub fn decode(opcode: u8) -> (entry: Option<OpcodeEntry>)
    ensures
        entry == spec_decode(opcode),
{
    match opcode {
        0x00 => Some(
            OpcodeEntry { mnemonic: Mnemonic::BRK, mode: AddressingModes::NoneAddressing },
        ),
        0xE8 => Some(
            OpcodeEntry { mnemonic: Mnemonic::INX, mode: AddressingModes::NoneAddressing },
        ),
        0xAA => Some(
            OpcodeEntry { mnemonic: Mnemonic::TAX, mode: AddressingModes::NoneAddressing },
        ),
        0xA9 => Some(OpcodeEntry { mnemonic: Mnemonic::LDA, mode: AddressingModes::Immediate }),
        0xA5 => Some(OpcodeEntry { mnemonic: Mnemonic::LDA, mode: AddressingModes::ZeroPage }),
        0xB5 => Some(OpcodeEntry { mnemonic: Mnemonic::LDA, mode: AddressingModes::ZeroPage_X }),
        0xAD => Some(OpcodeEntry { mnemonic: Mnemonic::LDA, mode: AddressingModes::Absolute }),
        0xBD => Some(OpcodeEntry { mnemonic: Mnemonic::LDA, mode: AddressingModes::Absolute_X }),
        0xB9 => Some(OpcodeEntry { mnemonic: Mnemonic::LDA, mode: AddressingModes::Absolute_Y }),
        0xA1 => Some(OpcodeEntry { mnemonic: Mnemonic::LDA, mode: AddressingModes::Indirect_X }),
        0xB1 => Some(OpcodeEntry { mnemonic: Mnemonic::LDA, mode: AddressingModes::Indirect_Y }),
        0x85 => Some(OpcodeEntry { mnemonic: Mnemonic::STA, mode: AddressingModes::ZeroPage }),
        0x95 => Some(OpcodeEntry { mnemonic: Mnemonic::STA, mode: AddressingModes::ZeroPage_X }),
        0x8D => Some(OpcodeEntry { mnemonic: Mnemonic::STA, mode: AddressingModes::Absolute }),
        0x9D => Some(OpcodeEntry { mnemonic: Mnemonic::STA, mode: AddressingModes::Absolute_X }),
        0x99 => Some(OpcodeEntry { mnemonic: Mnemonic::STA, mode: AddressingModes::Absolute_Y }),
        0x81 => Some(OpcodeEntry { mnemonic: Mnemonic::STA, mode: AddressingModes::Indirect_X }),
        0x91 => Some(OpcodeEntry { mnemonic: Mnemonic::STA, mode: AddressingModes::Indirect_Y }),
        _ => None,
    }
}

/// Every entry of the table pairs its instruction with a mode in which the
/// processor has that instruction.
pub proof fn lemma_table_consistent(opcode: u8)
    ensures
        spec_decode(opcode) matches Some(entry) ==> entry.mnemonic.supports(entry.mode),
{
}

/// The table has an opcode for every pair of instruction and mode that the
/// processor has, and for no other pair.
pub proof fn lemma_table_complete(entry: OpcodeEntry)
    ensures
        entry.mnemonic.supports(entry.mode) <==> exists|opcode: u8|
            spec_decode(opcode) == Some(entry),
{
    if entry.mnemonic.supports(entry.mode) {
        let opcode: u8 = match (entry.mnemonic, entry.mode) {
            (Mnemonic::BRK, _) => 0x00,
            (Mnemonic::INX, _) => 0xE8,
            (Mnemonic::TAX, _) => 0xAA,
            (Mnemonic::LDA, AddressingModes::Immediate) => 0xA9,
            (Mnemonic::LDA, AddressingModes::ZeroPage) => 0xA5,
            (Mnemonic::LDA, AddressingModes::ZeroPage_X) => 0xB5,
            (Mnemonic::LDA, AddressingModes::Absolute) => 0xAD,
            (Mnemonic::LDA, AddressingModes::Absolute_X) => 0xBD,
            (Mnemonic::LDA, AddressingModes::Absolute_Y) => 0xB9,
            (Mnemonic::LDA, AddressingModes::Indirect_X) => 0xA1,
            (Mnemonic::LDA, _) => 0xB1,
            (Mnemonic::STA, AddressingModes::ZeroPage) => 0x85,
            (Mnemonic::STA, AddressingModes::ZeroPage_X) => 0x95,
            (Mnemonic::STA, AddressingModes::Absolute) => 0x8D,
            (Mnemonic::STA, AddressingModes::Absolute_X) => 0x9D,
            (Mnemonic::STA, AddressingModes::Absolute_Y) => 0x99,
            (Mnemonic::STA, AddressingModes::Indirect_X) => 0x81,
            (Mnemonic::STA, _) => 0x91,
        };
        assert(spec_decode(opcode) == Some(entry));
    }
    if exists|opcode: u8| spec_decode(opcode) == Some(entry) {
        let opcode: u8 = choose|opcode: u8| spec_decode(opcode) == Some(entry);
        lemma_table_consistent(opcode);
    }
}

} // verus!
