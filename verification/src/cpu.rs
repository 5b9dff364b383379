//! The executable processor: the registers, the memory bus, the loader, the
//! address resolver, the instruction handlers and the run loop.
//!
//! A [`CPU`] is viewed as a [`Machine`], and the contract of every method
//! says how that view moves.

use vstd::prelude::*;
use crate::addressing::AddressingModes;
use crate::machine::{lemma_run_is_run_for, Fault, Machine, StepOutcome};
use crate::memory::{
    address_after,
    high_byte,
    low_byte,
    read_word,
    read_zero_page_word,
    word_of,
    zero_page_after,
    MEMORY_SIZE,
    PROGRAM_ORIGIN,
    RESET_VECTOR,
};
use crate::opcode::{decode, lemma_table_consistent, Mnemonic, OpcodeEntry};
use crate::status::{sign_bit, StatusFlag};

verus! {

/// A 6502 processor together with its 64 KiB of memory.
pub struct CPU {
    /// The accumulator.
    pub reg_a: u8,
    /// Index register X.
    pub reg_x: u8,
    /// Index register Y.
    pub reg_y: u8,
    /// The status register; see [`StatusFlag`] for its bits.
    pub status: u8,
    /// The program counter.
    pub pc: u16,
    /// The whole address space.
    pub memory: [u8; MEMORY_SIZE],
}

impl View for CPU {
    type V = Machine;

    open spec fn view(&self) -> Machine {
        Machine {
            a: self.reg_a,
            x: self.reg_x,
            y: self.reg_y,
            status: self.status,
            pc: self.pc,
            memory: self.memory@,
        }
    }
}

/// The zero-page location `index` bytes after `base`, wrapping within the
/// zero page.
fn add_in_zero_page(base: u8, index: u8) -> (sum: u8)
    ensures
        sum == zero_page_after(base, index as nat),
{
    base.wrapping_add(index)
}

/// The address `index` bytes after `base`, wrapping within the address space.
fn add_index(base: u16, index: u8) -> (sum: u16)
    ensures
        sum == address_after(base, index as nat),
{
    base.wrapping_add(index as u16)
}

/// The word whose low byte is `lo` and whose high byte is `hi`.
fn join_bytes(lo: u8, hi: u8) -> (word: u16)
    ensures
        word == word_of(lo, hi),
{
    let lo: u16 = lo as u16;
    let hi: u16 = hi as u16;
    assert((hi << 8) | lo == lo + 0x100 * hi) by (bit_vector)
        requires
            lo < 0x100,
            hi < 0x100,
    ;
    (hi << 8) | lo
}

impl CPU {
    /// A processor with every register and every byte of memory zero.
    pub fn new() -> (cpu: Self)
        ensures
            cpu@ == (Machine {
                a: 0,
                x: 0,
                y: 0,
                status: 0,
                pc: 0,
                memory: Seq::new(MEMORY_SIZE as nat, |i: int| 0u8),
            }),
    {
        let cpu = CPU { reg_a: 0, reg_x: 0, reg_y: 0, status: 0, pc: 0, memory: [0u8;MEMORY_SIZE] };
        assert(cpu@.memory =~= Seq::new(MEMORY_SIZE as nat, |i: int| 0u8));
        cpu
    }

    /// The byte at `addr`.
    pub fn mem_read(&self, addr: u16) -> (data: u8)
        ensures
            data == self@.memory[addr as int],
    {
        self.memory[addr as usize]
    }

    /// Stores `data` at `addr`.
    pub fn mem_write(&mut self, addr: u16, data: u8)
        ensures
            final(self)@ == old(self)@.write(addr, data),
    {
        self.memory[addr as usize] = data;
    }

    /// The little-endian word at `pos`: low byte at `pos`, high byte at the
    /// address after it, which is 0 when `pos` is 0xFFFF. Nothing changes.
    pub fn mem_read_u16(&mut self, pos: u16) -> (data: u16)
        ensures
            data == read_word(old(self)@.memory, pos),
            *final(self) == *old(self),
    {
        let lo: u8 = self.mem_read(pos);
        let hi: u8 = self.mem_read(pos.wrapping_add(1));
        join_bytes(lo, hi)
    }

    /// Stores the word `data` at `pos`: low byte at `pos`, high byte at the
    /// address after it, which is 0 when `pos` is 0xFFFF.
    pub fn mem_write_u16(&mut self, pos: u16, data: u16)
        ensures
            final(self)@ == old(self)@.write_word(pos, data),
    {
        assert(data >> 8 == data / 0x100 && data & 0xff == data % 0x100) by (bit_vector);
        let hi: u8 = (data >> 8) as u8;
        let lo: u8 = (data & 0xff) as u8;
        self.mem_write(pos, lo);
        self.mem_write(pos.wrapping_add(1), hi);
    }

    /// Clears the registers and the flags and takes the program counter from
    /// the reset vector. Memory is untouched.
    pub fn reset(&mut self)
        ensures
            final(self)@ == old(self)@.reset(),
    {
        self.reg_a = 0;
        self.reg_x = 0;
        self.reg_y = 0;
        self.status = 0;

        self.pc = self.mem_read_u16(RESET_VECTOR);
    }

    /// Copies `program` into memory from `PROGRAM_ORIGIN` upwards and then
    /// stores that address in the reset vector. The registers are untouched.
    ///
    /// The program must fit between `PROGRAM_ORIGIN` and the end of memory.
    /// One that reaches the reset vector has the two bytes there overwritten
    /// by the vector.
    pub fn load(&mut self, program: Vec<u8>)
        requires
            program.len() <= MEMORY_SIZE - PROGRAM_ORIGIN,
        ensures
            final(self)@ == old(self)@.load(program@),
            final(self)@.memory[RESET_VECTOR as int] == low_byte(PROGRAM_ORIGIN),
            final(self)@.memory[RESET_VECTOR + 1] == high_byte(PROGRAM_ORIGIN),
    {
        let mut i: usize = 0;
        while i < program.len()
            invariant
                i <= program.len() <= MEMORY_SIZE - PROGRAM_ORIGIN,
                self.reg_a == old(self).reg_a,
                self.reg_x == old(self).reg_x,
                self.reg_y == old(self).reg_y,
                self.status == old(self).status,
                self.pc == old(self).pc,
                forall|k: int|
                    0 <= k < MEMORY_SIZE ==> self.memory@[k] == if PROGRAM_ORIGIN <= k
                        < PROGRAM_ORIGIN + i {
                        program@[k - PROGRAM_ORIGIN]
                    } else {
                        old(self).memory@[k]
                    },
            decreases program.len() - i,
        {
            self.memory[PROGRAM_ORIGIN as usize + i] = program[i];
            i += 1;
        }
        assert(self.memory@ =~= Seq::new(
            old(self).memory@.len(),
            |k: int|
                if PROGRAM_ORIGIN <= k < PROGRAM_ORIGIN + program@.len() {
                    program@[k - PROGRAM_ORIGIN]
                } else {
                    old(self).memory@[k]
                },
        ));
        self.mem_write_u16(RESET_VECTOR, PROGRAM_ORIGIN);
    }

    /// The byte at the program counter; the counter moves past it, wrapping
    /// from 0xFFFF to 0.
    pub fn prog_read(&mut self) -> (data: u8)
        ensures
            data == old(self)@.next_byte(),
            final(self)@ == old(self)@.skip(1),
    {
        let result: u8 = self.mem_read(self.pc);
        self.pc = self.pc.wrapping_add(1);
        result
    }

    /// The little-endian word at the program counter; the counter moves past
    /// both bytes.
    pub fn prog_read_u16(&mut self) -> (data: u16)
        ensures
            data == old(self)@.next_word(),
            final(self)@ == old(self)@.skip(2),
    {
        let result: u16 = self.mem_read_u16(self.pc);
        self.pc = self.pc.wrapping_add(2);
        result
    }

    /// The little-endian word whose low byte is at zero-page location `ptr`
    /// and whose high byte is at the zero-page location after it, which is
    /// 0 when `ptr` is 0xFF.
    pub fn zero_page_read_u16(&self, ptr: u8) -> (data: u16)
        ensures
            data == read_zero_page_word(self@.memory, ptr),
    {
        let lo: u8 = self.mem_read(ptr as u16);
        let hi: u8 = self.mem_read(ptr.wrapping_add(1) as u16);
        join_bytes(lo, hi)
    }

    /// Whether `flag` is set.
    pub fn flag(&self, flag: StatusFlag) -> (on: bool)
        ensures
            on == self@.flag(flag),
    {
        self.status & flag.mask() != 0
    }

    /// Sets `flag` when `on` holds and clears it otherwise.
    pub fn set_flag(&mut self, flag: StatusFlag, on: bool)
        ensures
            final(self)@ == old(self)@.set_flag(flag, on),
    {
        if on {
            self.status = self.status | flag.mask();
        } else {
            self.status = self.status & !flag.mask();
        }
    }

    /// Sets the Zero flag when `result` is 0 and clears it otherwise.
    pub fn flag_update_zero(&mut self, result: u8)
        ensures
            final(self)@ == old(self)@.set_flag(StatusFlag::Zero, result == 0),
    {
        self.set_flag(StatusFlag::Zero, result == 0);
    }

    /// Sets the Negative flag when bit 7 of `result` is set and clears it
    /// otherwise.
    pub fn flag_update_negative(&mut self, result: u8)
        ensures
            final(self)@ == old(self)@.set_flag(StatusFlag::Negative, sign_bit(result)),
    {
        assert((result & 0x80 != 0) == (result >= 0x80)) by (bit_vector);
        self.set_flag(StatusFlag::Negative, result & 0x80 != 0);
    }

    /// Recomputes Zero and Negative from `value` and leaves the other flags.
    pub fn update_zero_and_negative(&mut self, value: u8)
        ensures
            final(self)@ == old(self)@.update_zero_and_negative(value),
    {
        self.flag_update_zero(value);
        self.flag_update_negative(value);
    }

    /// Finds the address of the operand of an instruction in `mode`, reading
    /// the operand bytes at the program counter and moving the counter past
    /// them.
    ///
    /// `NoneAddressing` has no operand: it is answered by
    /// `InvalidAddressingMode`, and nothing changes.
    pub fn resolve(&mut self, mode: AddressingModes) -> (result: Result<u16, Fault>)
        ensures
            (final(self)@, result) == old(self)@.resolve(mode),
            result is Err <==> mode == AddressingModes::NoneAddressing,
    {
        match mode {
            AddressingModes::Immediate => {
                let addr: u16 = self.pc;
                self.pc = self.pc.wrapping_add(1);
                Ok(addr)
            },
            AddressingModes::ZeroPage => {
                let operand: u8 = self.prog_read();
                Ok(operand as u16)
            },
            AddressingModes::ZeroPage_X => {
                let operand: u8 = self.prog_read();
                Ok(add_in_zero_page(operand, self.reg_x) as u16)
            },
            AddressingModes::ZeroPage_Y => {
                let operand: u8 = self.prog_read();
                Ok(add_in_zero_page(operand, self.reg_y) as u16)
            },
            AddressingModes::Absolute => {
                let operand: u16 = self.prog_read_u16();
                Ok(operand)
            },
            AddressingModes::Absolute_X => {
                let operand: u16 = self.prog_read_u16();
                Ok(add_index(operand, self.reg_x))
            },
            AddressingModes::Absolute_Y => {
                let operand: u16 = self.prog_read_u16();
                Ok(add_index(operand, self.reg_y))
            },
            AddressingModes::Indirect_X => {
                let operand: u8 = self.prog_read();
                let ptr: u8 = add_in_zero_page(operand, self.reg_x);
                Ok(self.zero_page_read_u16(ptr))
            },
            AddressingModes::Indirect_Y => {
                let operand: u8 = self.prog_read();
                let base: u16 = self.zero_page_read_u16(operand);
                Ok(add_index(base, self.reg_y))
            },
            AddressingModes::NoneAddressing => Err(Fault::InvalidAddressingMode(mode)),
        }
    }

    /// Load accumulator: the byte at `addr` goes to the accumulator, and Zero
    /// and Negative are recomputed from it.
    pub fn op_lda(&mut self, addr: u16)
        ensures
            final(self)@ == old(self)@.lda(addr),
    {
        self.reg_a = self.mem_read(addr);
        self.update_zero_and_negative(self.reg_a);
    }

    /// Store accumulator: the accumulator goes to the byte at `addr`. No flag
    /// changes.
    pub fn op_sta(&mut self, addr: u16)
        ensures
            final(self)@ == old(self)@.sta(addr),
    {
        self.mem_write(addr, self.reg_a);
    }

    /// Transfer accumulator to X: X becomes the accumulator's value, and Zero
    /// and Negative are recomputed from it.
    pub fn op_tax(&mut self)
        ensures
            final(self)@ == old(self)@.tax(),
    {
        self.reg_x = self.reg_a;
        self.update_zero_and_negative(self.reg_x);
    }

    /// Increment X, wrapping from 0xFF to 0; Zero and Negative are recomputed
    /// from the new value.
    pub fn op_inx(&mut self)
        ensures
            final(self)@ == old(self)@.inx(),
    {
        self.reg_x = self.reg_x.wrapping_add(1);
        self.update_zero_and_negative(self.reg_x);
    }

    /// Executes the instruction `entry`, whose opcode has been read already:
    /// the program counter stands at the first byte after it.
    ///
    /// A pair of instruction and mode that the processor does not have is
    /// answered by `InvalidAddressingMode`, and nothing changes.
    pub fn execute(&mut self, entry: OpcodeEntry) -> (result: Result<StepOutcome, Fault>)
        ensures
            (final(self)@, result) == old(self)@.execute(entry),
            result is Err <==> !entry.mnemonic.supports(entry.mode),
    {
        if !entry.mnemonic.supports(entry.mode) {
            return Err(Fault::InvalidAddressingMode(entry.mode));
        }
        match entry.mnemonic {
            Mnemonic::BRK => Ok(StepOutcome::Halt),
            Mnemonic::INX => {
                self.op_inx();
                Ok(StepOutcome::Continue)
            },
            Mnemonic::TAX => {
                self.op_tax();
                Ok(StepOutcome::Continue)
            },
            Mnemonic::LDA => {
                match self.resolve(entry.mode) {
                    Ok(addr) => {
                        self.op_lda(addr);
                        Ok(StepOutcome::Continue)
                    },
                    Err(fault) => Err(fault),
                }
            },
            Mnemonic::STA => {
                match self.resolve(entry.mode) {
                    Ok(addr) => {
                        self.op_sta(addr);
                        Ok(StepOutcome::Continue)
                    },
                    Err(fault) => Err(fault),
                }
            },
        }
    }

    /// Executes one instruction: reads the opcode at the program counter,
    /// moves the counter past it, looks the opcode up in the dispatch table
    /// and executes the entry found.
    ///
    /// A byte that the table has no entry for is answered by
    /// `UnimplementedOpcode`, with the counter past the byte. No other fault
    /// can come out of a step, since the table pairs every instruction with
    /// a mode that it supports.
    pub fn step(&mut self) -> (result: Result<StepOutcome, Fault>)
        ensures
            (final(self)@, result) == old(self)@.step(),
            result is Err <==> decode(old(self)@.next_byte()) is None,
            result matches Err(fault) ==> fault == Fault::UnimplementedOpcode(
                old(self)@.next_byte(),
            ),
    {
        let opcode: u8 = self.prog_read();
        match decode(opcode) {
            Some(entry) => {
                proof {
                    lemma_table_consistent(opcode);
                }
                self.execute(entry)
            },
            None => Err(Fault::UnimplementedOpcode(opcode)),
        }
    }

    /// Executes instructions until one halts or faults: `Ok` after the break
    /// instruction, `Err` with the first fault. The processor is left as that
    /// last instruction left it.
    ///
    /// There is no limit on the number of instructions, so the caller must
    /// know that the run ends; `lemma_stops_unfold` shows it one instruction
    /// at a time.
    pub fn run(&mut self) -> (result: Result<(), Fault>)
        requires
            old(self)@.stops(),
        ensures
            (final(self)@, result) == old(self)@.run(),
    {
        let ghost mut limit: nat = choose|limit: nat| old(self)@.stops_within(limit);
        proof {
            lemma_run_is_run_for(old(self)@, limit);
        }
        loop
            invariant
                self@.stops_within(limit),
                old(self)@.run() == (self@.run_for(limit).0, self@.run_for(limit).1.unwrap()),
            decreases limit,
        {
            match self.step() {
                Ok(StepOutcome::Continue) => {
                    proof {
                        limit = (limit - 1) as nat;
                    }
                },
                Ok(StepOutcome::Halt) => {
                    return Ok(());
                },
                Err(fault) => {
                    return Err(fault);
                },
            }
        }
    }

    /// Loads `program`, resets the processor and runs the program to its end:
    /// `load`, `reset` and `run`, in this order. Whatever the registers held
    /// before is gone by the time the first instruction is executed.
    pub fn load_and_run(&mut self, program: Vec<u8>) -> (result: Result<(), Fault>)
        requires
            program.len() <= MEMORY_SIZE - PROGRAM_ORIGIN,
            old(self)@.load(program@).reset().stops(),
        ensures
            (final(self)@, result) == old(self)@.load(program@).reset().run(),
    {
        self.load(program);
        self.reset();
        self.run()
    }
}

} // verus!
