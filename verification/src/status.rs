//! The processor status register: eight named bits held in one byte.

use vstd::prelude::*;

verus! {

/// The eight bits of the status register, from bit 0 to bit 7.
///
/// `Unused` is conventionally shown as 1 by hardware; no instruction here
/// reads or writes it.
#[derive(Clone, Copy, Debug, PartialEq, Eq, Structural)]
pub enum StatusFlag {
    Carry,
    Zero,
    InterruptDisable,
    Decimal,
    Break,
    Unused,
    Overflow,
    Negative,
}

impl StatusFlag {
    /// The byte in which only this flag's bit is set.
    pub open spec fn spec_mask(self) -> u8 {
        match self {
            StatusFlag::Carry => 0x01,
            StatusFlag::Zero => 0x02,
            StatusFlag::InterruptDisable => 0x04,
            StatusFlag::Decimal => 0x08,
            StatusFlag::Break => 0x10,
            StatusFlag::Unused => 0x20,
            StatusFlag::Overflow => 0x40,
            StatusFlag::Negative => 0x80,
        }
    }

    /// The byte in which only this flag's bit is set.
    #[verifier::when_used_as_spec(spec_mask)]
    pub fn mask(self) -> (m: u8)
        ensures
            m == self.spec_mask(),
    {
        match self {
            StatusFlag::Carry => 0x01,
            StatusFlag::Zero => 0x02,
            StatusFlag::InterruptDisable => 0x04,
            StatusFlag::Decimal => 0x08,
            StatusFlag::Break => 0x10,
            StatusFlag::Unused => 0x20,
            StatusFlag::Overflow => 0x40,
            StatusFlag::Negative => 0x80,
        }
    }
}

/// Whether `flag` is set in the status byte.
pub open spec fn flag_is_set(status: u8, flag: StatusFlag) -> bool {
    status & flag.mask() != 0
}

/// The status byte with `flag` set when `on` holds and cleared otherwise.
pub open spec fn with_flag(status: u8, flag: StatusFlag, on: bool) -> u8 {
    if on {
        status | flag.mask()
    } else {
        status & !flag.mask()
    }
}

/// Whether bit 7 of a byte is set, which is to say the byte is 128 or more.
pub open spec fn sign_bit(value: u8) -> bool {
    value >= 0x80
}

/// The status byte after an instruction has produced `value`: Zero is set
/// exactly when `value` is 0, Negative exactly when bit 7 of `value` is set.
pub open spec fn with_zero_and_negative(status: u8, value: u8) -> u8 {
    with_flag(
        with_flag(status, StatusFlag::Zero, value == 0),
        StatusFlag::Negative,
        sign_bit(value),
    )
}

/// Whether a byte has exactly one bit set.
pub open spec fn single_bit(mask: u8) -> bool {
    mask == 0x01 || mask == 0x02 || mask == 0x04 || mask == 0x08 || mask == 0x10 || mask == 0x20
        || mask == 0x40 || mask == 0x80
}

/// A flag that was written reads back as written, and every other flag reads
/// as it did before.
pub proof fn lemma_with_flag(status: u8, flag: StatusFlag, on: bool, other: StatusFlag)
    ensures
        flag_is_set(with_flag(status, flag, on), flag) == on,
        other != flag ==> flag_is_set(with_flag(status, flag, on), other) == flag_is_set(
            status,
            other,
        ),
{
    let m: u8 = flag.mask();
    let n: u8 = other.mask();
    assert((status | m) & m != 0 && (status & !m) & m == 0) by (bit_vector)
        requires
            single_bit(m),
    ;
    if other != flag {
        assert((status | m) & n == status & n && (status & !m) & n == status & n)
            by (bit_vector)
            requires
                single_bit(m),
                single_bit(n),
                m != n,
        ;
    }
}

/// After the Zero and Negative flags have been recomputed from `value`, Zero
/// tells whether `value` is 0, Negative tells whether its bit 7 is set, and
/// the six other flags are as they were.
pub proof fn lemma_with_zero_and_negative(status: u8, value: u8)
    ensures
        flag_is_set(with_zero_and_negative(status, value), StatusFlag::Zero) == (value == 0),
        flag_is_set(with_zero_and_negative(status, value), StatusFlag::Negative) == sign_bit(
            value,
        ),
        forall|flag: StatusFlag|
            flag != StatusFlag::Zero && flag != StatusFlag::Negative ==> #[trigger] flag_is_set(
                with_zero_and_negative(status, value),
                flag,
            ) == flag_is_set(status, flag),
{
    let zeroed: u8 = with_flag(status, StatusFlag::Zero, value == 0);
    lemma_with_flag(status, StatusFlag::Zero, value == 0, StatusFlag::Negative);
    lemma_with_flag(zeroed, StatusFlag::Negative, sign_bit(value), StatusFlag::Zero);
    assert forall|flag: StatusFlag|
        flag != StatusFlag::Zero && flag != StatusFlag::Negative implies #[trigger] flag_is_set(
        with_zero_and_negative(status, value),
        flag,
    ) == flag_is_set(status, flag) by {
        lemma_with_flag(status, StatusFlag::Zero, value == 0, flag);
        lemma_with_flag(zeroed, StatusFlag::Negative, sign_bit(value), flag);
    }
}

} // verus!
