//! The addressing modes: the rules by which an instruction finds the address
//! of its operand from the bytes that follow the opcode and the index
//! registers.

use vstd::prelude::*;

verus! {

/// The ten ways in which an instruction names its operand.
///
/// `NoneAddressing` is the mode of implied and accumulator instructions,
/// which have no operand in memory.
#[allow(non_camel_case_types)]
#[derive(Clone, Copy, Debug, PartialEq, Eq, Structural)]
pub enum AddressingModes {
    Immediate,
    ZeroPage,
    ZeroPage_X,
    ZeroPage_Y,
    Absolute,
    Absolute_X,
    Absolute_Y,
    Indirect_X,
    Indirect_Y,
    NoneAddressing,
}

impl AddressingModes {
    /// The number of operand bytes that follow the opcode in this mode.
    pub open spec fn spec_operand_len(self) -> u16 {
        match self {
            AddressingModes::NoneAddressing => 0,
            AddressingModes::Absolute
            | AddressingModes::Absolute_X
            | AddressingModes::Absolute_Y => 2,
            _ => 1,
        }
    }

    /// The number of operand bytes that follow the opcode in this mode.
    #[verifier::when_used_as_spec(spec_operand_len)]
    pub fn operand_len(self) -> (len: u16)
        ensures
            len == self.spec_operand_len(),
    {
        match self {
            AddressingModes::NoneAddressing => 0,
            AddressingModes::Absolute
            | AddressingModes::Absolute_X
            | AddressingModes::Absolute_Y => 2,
            _ => 1,
        }
    }
}

} // verus!
