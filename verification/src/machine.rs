//! The abstract machine: the state of the processor as plain mathematical
//! values, and the meaning of every operation as a function on that state.
//!
//! The executable [`CPU`](crate::cpu::CPU) is viewed as a [`Machine`], and
//! each of its methods promises to move that view as the function of the same
//! name here says.

use vstd::prelude::*;
use crate::addressing::AddressingModes;
use crate::memory::{
    address_after,
    load_program,
    read_word,
    read_zero_page_word,
    write_word,
    zero_page_after,
    MEMORY_SIZE,
    RESET_VECTOR,
};
use crate::opcode::{spec_decode, Mnemonic, OpcodeEntry};
use crate::status::{flag_is_set, with_flag, with_zero_and_negative, StatusFlag};

verus! {

/// Why an instruction could not be executed.
#[derive(Clone, Copy, Debug, PartialEq, Eq, Structural)]
pub enum Fault {
    /// The dispatch table has no instruction for the fetched byte.
    UnimplementedOpcode(u8),
    /// The mode has no operand to find the address of, or the processor does
    /// not have the instruction in that mode.
    InvalidAddressingMode(AddressingModes),
}

/// How an instruction that was executed leaves the run.
#[derive(Clone, Copy, Debug, PartialEq, Eq, Structural)]
pub enum StepOutcome {
    /// The next instruction can be executed.
    Continue,
    /// The break instruction was executed: the run is over.
    Halt,
}

/// The state of the processor and its memory.
#[verifier::ext_equal]
pub struct Machine {
    /// The accumulator.
    pub a: u8,
    /// Index register X.
    pub x: u8,
    /// Index register Y.
    pub y: u8,
    /// The status register.
    pub status: u8,
    /// The program counter: the address of the next byte to be read.
    pub pc: u16,
    /// The contents of the address space.
    pub memory: Seq<u8>,
}

impl Machine {
    /// The memory covers the whole address space.
    pub open spec fn wf(self) -> bool {
        self.memory.len() == MEMORY_SIZE
    }

    /// Whether `flag` is set in the status register.
    pub open spec fn flag(self, flag: StatusFlag) -> bool {
        flag_is_set(self.status, flag)
    }

    /// The byte at the program counter.
    pub open spec fn next_byte(self) -> u8 {
        self.memory[self.pc as int]
    }

    /// The little-endian word at the program counter.
    pub open spec fn next_word(self) -> u16 {
        read_word(self.memory, self.pc)
    }

    /// The machine with its program counter moved `count` bytes on.
    pub open spec fn skip(self, count: nat) -> Machine {
        Machine { pc: address_after(self.pc, count), ..self }
    }

    /// The machine with `data` stored at `addr`.
    pub open spec fn write(self, addr: u16, data: u8) -> Machine {
        Machine { memory: self.memory.update(addr as int, data), ..self }
    }

    /// The machine with the word `data` stored at `addr`, low byte first.
    pub open spec fn write_word(self, addr: u16, data: u16) -> Machine {
        Machine { memory: write_word(self.memory, addr, data), ..self }
    }

    /// The machine with `flag` set when `on` holds and cleared otherwise.
    pub open spec fn set_flag(self, flag: StatusFlag, on: bool) -> Machine {
        Machine { status: with_flag(self.status, flag, on), ..self }
    }

    /// The machine with Zero and Negative recomputed from `value`.
    pub open spec fn update_zero_and_negative(self, value: u8) -> Machine {
        Machine { status: with_zero_and_negative(self.status, value), ..self }
    }

    /// The machine after a reset: registers and flags cleared, the program
    /// counter taken from the reset vector, memory as it was.
    pub open spec fn reset(self) -> Machine {
        Machine {
            a: 0,
            x: 0,
            y: 0,
            status: 0,
            pc: read_word(self.memory, RESET_VECTOR),
            memory: self.memory,
        }
    }

    /// The machine after `program` has been loaded: only memory changes.
    pub open spec fn load(self, program: Seq<u8>) -> Machine {
        Machine { memory: load_program(self.memory, program), ..self }
    }

    /// The address of the operand of an instruction in `mode`, for a machine
    /// whose program counter stands at the first byte after the opcode;
    /// `None` for the mode that has no operand.
    ///
    /// Sums with an index register wrap: within the zero page for the
    /// zero-page and indirect modes, within the address space for the
    /// absolute ones. Both indirect modes read their pointer from the zero
    /// page, and that two-byte read wraps within the zero page as well.
    pub open spec fn effective_address(self, mode: AddressingModes) -> Option<u16> {
        match mode {
            AddressingModes::Immediate => Some(self.pc),
            AddressingModes::ZeroPage => Some(self.next_byte() as u16),
            AddressingModes::ZeroPage_X => Some(
                zero_page_after(self.next_byte(), self.x as nat) as u16,
            ),
            AddressingModes::ZeroPage_Y => Some(
                zero_page_after(self.next_byte(), self.y as nat) as u16,
            ),
            AddressingModes::Absolute => Some(self.next_word()),
            AddressingModes::Absolute_X => Some(address_after(self.next_word(), self.x as nat)),
            AddressingModes::Absolute_Y => Some(address_after(self.next_word(), self.y as nat)),
            AddressingModes::Indirect_X => Some(
                read_zero_page_word(self.memory, zero_page_after(self.next_byte(), self.x as nat)),
            ),
            AddressingModes::Indirect_Y => Some(
                address_after(read_zero_page_word(self.memory, self.next_byte()), self.y as nat),
            ),
            AddressingModes::NoneAddressing => None,
        }
    }

    /// Address resolution: the operand's address, with the program counter
    /// moved past the operand bytes; for the mode without operand, a fault
    /// and the machine as it was.
    pub open spec fn resolve(self, mode: AddressingModes) -> (Machine, Result<u16, Fault>) {
        match self.effective_address(mode) {
            Some(addr) => (self.skip(mode.operand_len() as nat), Ok(addr)),
            None => (self, Err(Fault::InvalidAddressingMode(mode))),
        }
    }

    /// Load accumulator: the byte at `addr` goes to the accumulator, and Zero
    /// and Negative are recomputed from it.
    pub open spec fn lda(self, addr: u16) -> Machine {
        let value: u8 = self.memory[addr as int];
        Machine { a: value, ..self }.update_zero_and_negative(value)
    }

    /// Store accumulator: the accumulator goes to the byte at `addr`.
    pub open spec fn sta(self, addr: u16) -> Machine {
        self.write(addr, self.a)
    }

    /// Transfer accumulator to X, and recompute Zero and Negative from it.
    pub open spec fn tax(self) -> Machine {
        Machine { x: self.a, ..self }.update_zero_and_negative(self.a)
    }

    /// Increment X, wrapping from 0xFF to 0, and recompute Zero and Negative
    /// from the new value.
    pub open spec fn inx(self) -> Machine {
        let value: u8 = ((self.x + 1) % 0x100) as u8;
        Machine { x: value, ..self }.update_zero_and_negative(value)
    }

    /// The effect of the instruction `entry` on a machine whose program
    /// counter stands at the first byte after the opcode.
    ///
    /// A pair of instruction and mode that the processor does not have is a
    /// fault and changes nothing.
    pub open spec fn execute(self, entry: OpcodeEntry) -> (Machine, Result<StepOutcome, Fault>) {
        if !entry.mnemonic.supports(entry.mode) {
            (self, Err(Fault::InvalidAddressingMode(entry.mode)))
        } else {
            match entry.mnemonic {
                Mnemonic::BRK => (self, Ok(StepOutcome::Halt)),
                Mnemonic::INX => (self.inx(), Ok(StepOutcome::Continue)),
                Mnemonic::TAX => (self.tax(), Ok(StepOutcome::Continue)),
                Mnemonic::LDA => match self.resolve(entry.mode) {
                    (resolved, Ok(addr)) => (resolved.lda(addr), Ok(StepOutcome::Continue)),
                    (resolved, Err(fault)) => (resolved, Err(fault)),
                },
                Mnemonic::STA => match self.resolve(entry.mode) {
                    (resolved, Ok(addr)) => (resolved.sta(addr), Ok(StepOutcome::Continue)),
                    (resolved, Err(fault)) => (resolved, Err(fault)),
                },
            }
        }
    }

    /// One instruction: the opcode is read at the program counter, the
    /// counter moves past it, and the table's entry for the opcode is
    /// executed. A byte without entry is a fault, with the counter past it.
    pub open spec fn step(self) -> (Machine, Result<StepOutcome, Fault>) {
        let opcode: u8 = self.next_byte();
        match spec_decode(opcode) {
            Some(entry) => self.skip(1).execute(entry),
            None => (self.skip(1), Err(Fault::UnimplementedOpcode(opcode))),
        }
    }

    /// The machine after up to `limit` instructions. The run ends at the
    /// first instruction that halts or faults, and the second component then
    /// says which; it is `None` while the run is still going after `limit`
    /// instructions.
    pub open spec fn run_for(self, limit: nat) -> (Machine, Option<Result<(), Fault>>)
        decreases limit,
    {
        if limit == 0 {
            (self, None)
        } else {
            let (next, outcome) = self.step();
            match outcome {
                Ok(StepOutcome::Continue) => next.run_for((limit - 1) as nat),
                Ok(StepOutcome::Halt) => (next, Some(Ok(()))),
                Err(fault) => (next, Some(Err(fault))),
            }
        }
    }

    /// Whether the run from this machine ends within `limit` instructions.
    pub open spec fn stops_within(self, limit: nat) -> bool {
        self.run_for(limit).1 is Some
    }

    /// Whether the run from this machine ends at all.
    pub open spec fn stops(self) -> bool {
        exists|limit: nat| self.stops_within(limit)
    }

    /// For a machine whose run ends: the machine at the end of the run, and
    /// whether the run ended in a halt or in a fault.
    pub open spec fn run(self) -> (Machine, Result<(), Fault>) {
        let limit: nat = choose|limit: nat| self.stops_within(limit);
        (self.run_for(limit).0, self.run_for(limit).1.unwrap())
    }
}

/// A run that has ended within `limit` instructions is the same under every
/// greater limit.
pub proof fn lemma_run_for_stable(m: Machine, limit: nat, more: nat)
    requires
        m.stops_within(limit),
        limit <= more,
    ensures
        m.run_for(more) == m.run_for(limit),
    decreases limit,
{
    if m.step().1 == Ok::<StepOutcome, Fault>(StepOutcome::Continue) {
        lemma_run_for_stable(m.step().0, (limit - 1) as nat, (more - 1) as nat);
    }
}

/// The end of a run does not depend on the limit under which it is reached:
/// whenever the run ends within `limit` instructions, `run` is what
/// `run_for(limit)` gives.
pub proof fn lemma_run_is_run_for(m: Machine, limit: nat)
    requires
        m.stops_within(limit),
    ensures
        m.stops(),
        m.run() == (m.run_for(limit).0, m.run_for(limit).1.unwrap()),
{
    let chosen = choose|limit: nat| m.stops_within(limit);
    if chosen <= limit {
        lemma_run_for_stable(m, chosen, limit);
    } else {
        lemma_run_for_stable(m, limit, chosen);
    }
}

/// A run ends exactly when its first instruction halts or faults, or when
/// the run from the machine that this instruction leaves ends.
pub proof fn lemma_stops_unfold(m: Machine)
    ensures
        m.stops() <==> m.step().1 != Ok::<StepOutcome, Fault>(StepOutcome::Continue)
            || m.step().0.stops(),
{
    if m.stops() {
        let limit = choose|limit: nat| m.stops_within(limit);
        assert(m.step().1 == Ok::<StepOutcome, Fault>(StepOutcome::Continue)
            ==> m.step().0.stops_within((limit - 1) as nat));
    }
    if m.step().1 != Ok::<StepOutcome, Fault>(StepOutcome::Continue) {
        assert(m.stops_within(1));
    } else if m.step().0.stops() {
        let limit = choose|limit: nat| m.step().0.stops_within(limit);
        assert(m.stops_within(limit + 1));
    }
}

/// A run unfolds one instruction at a time: after an instruction that
/// continues, the rest of the run is the run of the machine it left; an
/// instruction that halts or faults ends the run where it left the machine.
pub proof fn lemma_run_unfold(m: Machine)
    requires
        m.stops(),
    ensures
        m.step().1 == Ok::<StepOutcome, Fault>(StepOutcome::Continue) ==> m.step().0.stops()
            && m.run() == m.step().0.run(),
        m.step().1 == Ok::<StepOutcome, Fault>(StepOutcome::Halt) ==> m.run() == (
            m.step().0,
            Ok::<(), Fault>(()),
        ),
        m.step().1 matches Err(fault) ==> m.run() == (m.step().0, Err::<(), Fault>(fault)),
{
    let limit = choose|limit: nat| m.stops_within(limit);
    lemma_run_is_run_for(m, limit);
    if m.step().1 == Ok::<StepOutcome, Fault>(StepOutcome::Continue) {
        lemma_run_is_run_for(m.step().0, (limit - 1) as nat);
    }
}

} // verus!
