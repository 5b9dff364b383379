//! The memory bus: a flat store of 65536 bytes, modelled as a sequence, with
//! reads and writes of single bytes and of little-endian words.
//!
//! Every address is a `u16` and every word access wraps at the end of the
//! address space, so no access can fall outside the store.

use vstd::prelude::*;

verus! {

/// The number of bytes in the address space.
pub const MEMORY_SIZE: usize = 0x10000;

/// The address at which a program is loaded and at which it starts.
pub const PROGRAM_ORIGIN: u16 = 0x8000;

/// The address of the two bytes that hold the start address used by a reset.
pub const RESET_VECTOR: u16 = 0xFFFC;

/// The address `count` bytes after `addr`, wrapping from 0xFFFF to 0.
pub open spec fn address_after(addr: u16, count: nat) -> u16 {
    ((addr + count) % 0x10000) as u16
}

/// The zero-page location `count` bytes after `ptr`, wrapping from 0xFF to 0.
pub open spec fn zero_page_after(ptr: u8, count: nat) -> u8 {
    ((ptr + count) % 0x100) as u8
}

/// The word whose low byte is `lo` and whose high byte is `hi`.
pub open spec fn word_of(lo: u8, hi: u8) -> u16 {
    (lo + 0x100 * hi) as u16
}

/// The low byte of a word.
pub open spec fn low_byte(value: u16) -> u8 {
    (value % 0x100) as u8
}

/// The high byte of a word.
pub open spec fn high_byte(value: u16) -> u8 {
    (value / 0x100) as u8
}

/// The little-endian word at `addr`: low byte at `addr`, high byte at the
/// address after it.
pub open spec fn read_word(memory: Seq<u8>, addr: u16) -> u16 {
    word_of(memory[addr as int], memory[address_after(addr, 1) as int])
}

/// The little-endian word whose low byte is at zero-page location `ptr` and
/// whose high byte is at the zero-page location after it.
pub open spec fn read_zero_page_word(memory: Seq<u8>, ptr: u8) -> u16 {
    word_of(memory[ptr as int], memory[zero_page_after(ptr, 1) as int])
}

/// Memory after `value` has been stored at `addr`, low byte first and high
/// byte at the address after it.
pub open spec fn write_word(memory: Seq<u8>, addr: u16, value: u16) -> Seq<u8> {
    memory.update(addr as int, low_byte(value)).update(
        address_after(addr, 1) as int,
        high_byte(value),
    )
}

/// Memory after `program` has been copied to `PROGRAM_ORIGIN` and upwards and
/// that address has then been stored in the reset vector.
pub open spec fn load_program(memory: Seq<u8>, program: Seq<u8>) -> Seq<u8> {
    write_word(
        Seq::new(
            memory.len(),
            |i: int|
                if PROGRAM_ORIGIN <= i < PROGRAM_ORIGIN + program.len() {
                    program[i - PROGRAM_ORIGIN]
                } else {
                    memory[i]
                },
        ),
        RESET_VECTOR,
        PROGRAM_ORIGIN,
    )
}

/// A word is put together again from its two bytes.
pub proof fn lemma_word_of_bytes(value: u16)
    ensures
        word_of(low_byte(value), high_byte(value)) == value,
{
}

/// The two bytes of a word that was put together are the bytes it was made of.
pub proof fn lemma_bytes_of_word(lo: u8, hi: u8)
    ensures
        low_byte(word_of(lo, hi)) == lo,
        high_byte(word_of(lo, hi)) == hi,
{
}

/// A word that was written is the word read back from the same address, at
/// every address, the last one included.
pub proof fn lemma_read_after_write_word(memory: Seq<u8>, addr: u16, value: u16)
    requires
        memory.len() == MEMORY_SIZE,
    ensures
        write_word(memory, addr, value).len() == MEMORY_SIZE,
        read_word(write_word(memory, addr, value), addr) == value,
{
}

} // verus!
