//! What holds of the machine in every state: the laws of the instructions,
//! of the addressing modes and of the loader, proved from the definitions in
//! [`machine`](crate::machine).

use vstd::prelude::*;
use crate::addressing::AddressingModes;
use crate::machine::{Fault, Machine, StepOutcome};
use crate::memory::{
    address_after,
    high_byte,
    low_byte,
    read_word,
    word_of,
    zero_page_after,
    MEMORY_SIZE,
    PROGRAM_ORIGIN,
    RESET_VECTOR,
};
use crate::opcode::{lemma_table_consistent, spec_decode, Mnemonic};
use crate::status::{lemma_with_zero_and_negative, sign_bit, StatusFlag};

verus! {

/// An immediate load into the accumulator with operand `v` leaves `v` in the
/// accumulator, sets Zero exactly when `v` is 0 and Negative exactly when bit
/// 7 of `v` is set, and changes no other flag, no other register and no
/// memory; the program counter ends two bytes on.
pub proof fn theorem_lda_immediate(m: Machine, v: u8)
    requires
        m.wf(),
        m.next_byte() == 0xA9,
        m.memory[address_after(m.pc, 1) as int] == v,
    ensures
        m.step().1 == Ok::<StepOutcome, Fault>(StepOutcome::Continue),
        m.step().0.a == v,
        m.step().0.flag(StatusFlag::Zero) == (v == 0),
        m.step().0.flag(StatusFlag::Negative) == sign_bit(v),
        m.step().0.flag(StatusFlag::Carry) == m.flag(StatusFlag::Carry),
        m.step().0.flag(StatusFlag::Overflow) == m.flag(StatusFlag::Overflow),
        m.step().0.flag(StatusFlag::Decimal) == m.flag(StatusFlag::Decimal),
        m.step().0.flag(StatusFlag::InterruptDisable) == m.flag(StatusFlag::InterruptDisable),
        m.step().0.flag(StatusFlag::Break) == m.flag(StatusFlag::Break),
        m.step().0.flag(StatusFlag::Unused) == m.flag(StatusFlag::Unused),
        m.step().0.x == m.x,
        m.step().0.y == m.y,
        m.step().0.memory == m.memory,
        m.step().0.pc == address_after(m.pc, 2),
{
    lemma_with_zero_and_negative(m.status, v);
}

/// A load into the accumulator, in whatever mode, leaves in the accumulator
/// the byte at the operand's address and recomputes Zero and Negative from
/// that byte.
pub proof fn theorem_lda(m: Machine, addr: u16)
    ensures
        m.lda(addr).a == m.memory[addr as int],
        m.lda(addr).flag(StatusFlag::Zero) == (m.memory[addr as int] == 0),
        m.lda(addr).flag(StatusFlag::Negative) == sign_bit(m.memory[addr as int]),
        forall|flag: StatusFlag|
            flag != StatusFlag::Zero && flag != StatusFlag::Negative ==> #[trigger] m.lda(
                addr,
            ).flag(flag) == m.flag(flag),
{
    lemma_with_zero_and_negative(m.status, m.memory[addr as int]);
}

/// A store of the accumulator changes the byte at the operand's address and
/// nothing else: no register, no flag, no other byte.
pub proof fn theorem_sta(m: Machine, addr: u16)
    requires
        m.wf(),
    ensures
        m.sta(addr).memory[addr as int] == m.a,
        forall|other: u16|
            other != addr ==> #[trigger] m.sta(addr).memory[other as int]
                == m.memory[other as int],
        m.sta(addr).status == m.status,
        m.sta(addr).a == m.a,
        m.sta(addr).x == m.x,
        m.sta(addr).y == m.y,
        m.sta(addr).pc == m.pc,
{
}

/// Transfer-accumulator-to-X copies the accumulator into X, whatever the
/// state, and recomputes Zero and Negative from the copied value; the
/// accumulator, the other flags and memory stay as they were.
pub proof fn theorem_tax(m: Machine)
    requires
        m.next_byte() == 0xAA,
    ensures
        m.step().1 == Ok::<StepOutcome, Fault>(StepOutcome::Continue),
        m.step().0.x == m.a,
        m.step().0.a == m.a,
        m.step().0.flag(StatusFlag::Zero) == (m.a == 0),
        m.step().0.flag(StatusFlag::Negative) == sign_bit(m.a),
        forall|flag: StatusFlag|
            flag != StatusFlag::Zero && flag != StatusFlag::Negative
                ==> #[trigger] m.step().0.flag(flag) == m.flag(flag),
        m.step().0.y == m.y,
        m.step().0.memory == m.memory,
        m.step().0.pc == address_after(m.pc, 1),
{
    lemma_with_zero_and_negative(m.status, m.a);
}

/// Increment-X adds one to X and wraps from 0xFF to 0, in which case Zero is
/// set and Negative is cleared; in every case Zero and Negative are
/// recomputed from the new value and nothing else changes.
pub proof fn theorem_inx(m: Machine)
    requires
        m.next_byte() == 0xE8,
    ensures
        m.step().1 == Ok::<StepOutcome, Fault>(StepOutcome::Continue),
        m.x < 0xFF ==> m.step().0.x == m.x + 1,
        m.x == 0xFF ==> m.step().0.x == 0 && m.step().0.flag(StatusFlag::Zero)
            && !m.step().0.flag(StatusFlag::Negative),
        m.step().0.flag(StatusFlag::Zero) == (m.step().0.x == 0),
        m.step().0.flag(StatusFlag::Negative) == sign_bit(m.step().0.x),
        forall|flag: StatusFlag|
            flag != StatusFlag::Zero && flag != StatusFlag::Negative
                ==> #[trigger] m.step().0.flag(flag) == m.flag(flag),
        m.step().0.a == m.a,
        m.step().0.y == m.y,
        m.step().0.memory == m.memory,
        m.step().0.pc == address_after(m.pc, 1),
{
    lemma_with_zero_and_negative(m.status, m.inx().x);
}

/// The break instruction ends the run and changes nothing but the program
/// counter, which has moved past the opcode.
pub proof fn theorem_brk(m: Machine)
    requires
        m.next_byte() == 0x00,
    ensures
        m.step() == (m.skip(1), Ok::<StepOutcome, Fault>(StepOutcome::Halt)),
{
}

/// An address indexed within the zero page never leaves the zero page: the
/// sum of operand and index register wraps at 256, so that operand 0xFF with
/// an index of 1 gives address 0x00, not 0x100.
pub proof fn theorem_zero_page_indexed_wraps(m: Machine)
    ensures
        m.effective_address(AddressingModes::ZeroPage_X) matches Some(addr) && addr < 0x100
            && (addr == m.next_byte() + m.x || addr == m.next_byte() + m.x - 0x100),
        m.effective_address(AddressingModes::ZeroPage_Y) matches Some(addr) && addr < 0x100
            && (addr == m.next_byte() + m.y || addr == m.next_byte() + m.y - 0x100),
        m.next_byte() == 0xFF && m.x == 1 ==> m.effective_address(AddressingModes::ZeroPage_X)
            == Some(0x00u16),
        m.next_byte() == 0xFF && m.y == 1 ==> m.effective_address(AddressingModes::ZeroPage_Y)
            == Some(0x00u16),
{
}

/// An indexed absolute address wraps at the end of the address space: the
/// sum of operand and index register is taken modulo 65536, so that operand
/// 0xFFFF with an index of 1 gives address 0x0000.
pub proof fn theorem_absolute_indexed_wraps(m: Machine)
    ensures
        m.effective_address(AddressingModes::Absolute_X) matches Some(addr)
            && (addr == m.next_word() + m.x || addr == m.next_word() + m.x - 0x10000),
        m.effective_address(AddressingModes::Absolute_Y) matches Some(addr)
            && (addr == m.next_word() + m.y || addr == m.next_word() + m.y - 0x10000),
        m.next_word() == 0xFFFF && m.x == 1 ==> m.effective_address(AddressingModes::Absolute_X)
            == Some(0x0000u16),
        m.next_word() == 0xFFFF && m.y == 1 ==> m.effective_address(AddressingModes::Absolute_Y)
            == Some(0x0000u16),
{
}

/// Both indirect modes take their pointer from the zero page alone: a
/// pointer at location 0xFF has its low byte there and its high byte at
/// location 0x00, not at 0x100.
pub proof fn theorem_indirect_pointer_wraps(m: Machine)
    ensures
        zero_page_after(m.next_byte(), m.x as nat) == 0xFF ==> m.effective_address(
            AddressingModes::Indirect_X,
        ) == Some(word_of(m.memory[0xFF], m.memory[0x00])),
        m.next_byte() == 0xFF ==> m.effective_address(AddressingModes::Indirect_Y) == Some(
            address_after(word_of(m.memory[0xFF], m.memory[0x00]), m.y as nat),
        ),
{
}

/// Address resolution moves the program counter past exactly the operand
/// bytes of the mode and changes nothing else; only the mode without operand
/// is refused.
pub proof fn theorem_resolve(m: Machine, mode: AddressingModes)
    ensures
        mode != AddressingModes::NoneAddressing ==> m.resolve(mode).1 is Ok && m.resolve(mode).0
            == m.skip(mode.operand_len() as nat),
        mode == AddressingModes::NoneAddressing ==> m.resolve(mode) == (
            m,
            Err::<u16, Fault>(Fault::InvalidAddressingMode(mode)),
        ),
{
}

/// After a program has been loaded, the two bytes of the reset vector hold
/// `PROGRAM_ORIGIN` in little-endian order, so that a reset starts the
/// program at its first byte.
pub proof fn theorem_load_sets_reset_vector(m: Machine, program: Seq<u8>)
    requires
        m.wf(),
        program.len() <= MEMORY_SIZE - PROGRAM_ORIGIN,
    ensures
        m.load(program).memory[RESET_VECTOR as int] == low_byte(PROGRAM_ORIGIN),
        m.load(program).memory[RESET_VECTOR + 1] == high_byte(PROGRAM_ORIGIN),
        low_byte(PROGRAM_ORIGIN) == 0x00,
        high_byte(PROGRAM_ORIGIN) == 0x80,
        read_word(m.load(program).memory, RESET_VECTOR) == PROGRAM_ORIGIN,
        m.load(program).reset().pc == PROGRAM_ORIGIN,
        program.len() > 0 ==> m.load(program).reset().next_byte() == program[0],
{
}

/// Loading changes memory only: the program's bytes stand from
/// `PROGRAM_ORIGIN` upwards, but for the two that the reset vector takes if
/// the program reaches that far; every byte outside the program and the
/// vector, and every register, is as it was.
pub proof fn theorem_load_places_program(m: Machine, program: Seq<u8>)
    requires
        m.wf(),
        program.len() <= MEMORY_SIZE - PROGRAM_ORIGIN,
    ensures
        m.load(program).wf(),
        forall|i: int|
            0 <= i < program.len() && PROGRAM_ORIGIN + i != RESET_VECTOR && PROGRAM_ORIGIN + i
                != RESET_VECTOR + 1 ==> #[trigger] m.load(program).memory[PROGRAM_ORIGIN + i]
                == program[i],
        forall|k: int|
            0 <= k < PROGRAM_ORIGIN || (PROGRAM_ORIGIN + program.len() <= k < MEMORY_SIZE && k
                != RESET_VECTOR && k != RESET_VECTOR + 1) ==> #[trigger] m.load(program).memory[k]
                == m.memory[k],
        m.load(program).a == m.a,
        m.load(program).x == m.x,
        m.load(program).y == m.y,
        m.load(program).status == m.status,
        m.load(program).pc == m.pc,
{
}

/// A reset clears the registers and every flag, whatever they held, and
/// leaves memory alone.
pub proof fn theorem_reset(m: Machine)
    ensures
        m.reset().a == 0 && m.reset().x == 0 && m.reset().y == 0,
        forall|flag: StatusFlag| !#[trigger] m.reset().flag(flag),
        m.reset().memory == m.memory,
{
    assert forall|flag: StatusFlag| !#[trigger] m.reset().flag(flag) by {
        let mask: u8 = flag.mask();
        assert(0u8 & mask == 0) by (bit_vector);
    }
}

/// No instruction touches a flag other than Zero and Negative, and a fault
/// touches no flag at all.
pub proof fn theorem_step_keeps_other_flags(m: Machine, flag: StatusFlag)
    requires
        flag != StatusFlag::Zero,
        flag != StatusFlag::Negative,
    ensures
        m.step().0.flag(flag) == m.flag(flag),
        m.step().1 is Err ==> m.step().0.status == m.status,
{
    let fetched = m.skip(1);
    lemma_with_zero_and_negative(m.status, fetched.inx().x);
    lemma_with_zero_and_negative(m.status, m.a);
    match spec_decode(m.next_byte()) {
        Some(entry) => {
            if entry.mnemonic == Mnemonic::LDA {
                let addr: u16 = fetched.effective_address(entry.mode).unwrap();
                lemma_with_zero_and_negative(m.status, m.memory[addr as int]);
            }
        },
        None => {},
    }
}

/// The program counter always stands at the next unread byte: an instruction
/// moves it past its opcode and its operand bytes, and a byte that is no
/// instruction moves it past that byte.
pub proof fn theorem_step_advances_pc(m: Machine)
    ensures
        spec_decode(m.next_byte()) matches Some(entry) ==> m.step().0.pc == address_after(
            m.pc,
            (1 + entry.mode.operand_len()) as nat,
        ),
        spec_decode(m.next_byte()) is None ==> m.step().0.pc == address_after(m.pc, 1),
{
}

/// A step faults exactly on a byte that the dispatch table has no entry for,
/// and the fault names that byte; it then leaves the registers and memory as
/// they were, with the program counter past the byte.
pub proof fn theorem_step_fault(m: Machine)
    ensures
        m.step().1 is Err <==> spec_decode(m.next_byte()) is None,
        m.step().1 is Err ==> m.step() == (
            m.skip(1),
            Err::<StepOutcome, Fault>(Fault::UnimplementedOpcode(m.next_byte())),
        ),
{
    lemma_table_consistent(m.next_byte());
}

/// Memory covers the whole address space in every state that the machine
/// can reach: loading, resetting and stepping all keep its size.
pub proof fn theorem_wf_preserved(m: Machine, program: Seq<u8>)
    requires
        m.wf(),
    ensures
        m.load(program).wf(),
        m.reset().wf(),
        m.step().0.wf(),
{
}

/// A run of any length keeps the size of memory.
pub proof fn theorem_run_wf(m: Machine, limit: nat)
    requires
        m.wf(),
    ensures
        m.run_for(limit).0.wf(),
    decreases limit,
{
    if limit > 0 {
        theorem_wf_preserved(m, Seq::empty());
        theorem_run_wf(m.step().0, (limit - 1) as nat);
    }
}

} // verus!
