//! The status register P, a byte of condition flags.

use vstd::prelude::*;

verus! {

/// The flags of the status register.
///
/// `Break` and `Unused` are no state of the processor: they only show in the
/// copies of P that are pushed on the stack.
#[derive(Clone, Copy, PartialEq, Eq, Structural, Debug)]
pub enum Flags {
    /// Bit 0: carry, or borrow inverted.
    Carry,
    /// Bit 1: the last result was zero.
    Zero,
    /// Bit 2: maskable interrupts are disabled.
    Interrupt,
    /// Bit 3: decimal mode, which can be set but changes no arithmetic.
    Decimal,
    /// Bit 4: the pushed copy comes from software (PHP, BRK).
    Break,
    /// Bit 5: reads as one in every pushed copy.
    Unused,
    /// Bit 6: signed overflow.
    Overflow,
    /// Bit 7: bit 7 of the last result.
    Negative,
}

impl Flags {
    /// The bit of P that holds the flag.
    pub open spec fn spec_mask(self) -> u8 {
        match self {
            Flags::Carry => 0x01,
            Flags::Zero => 0x02,
            Flags::Interrupt => 0x04,
            Flags::Decimal => 0x08,
            Flags::Break => 0x10,
            Flags::Unused => 0x20,
            Flags::Overflow => 0x40,
            Flags::Negative => 0x80,
        }
    }

    /// The bit of P that holds the flag.
    #[verifier::when_used_as_spec(spec_mask)]
    pub fn mask(self) -> (m: u8)
        ensures
            m == self.spec_mask(),
    {
        match self {
            Flags::Carry => 0x01,
            Flags::Zero => 0x02,
            Flags::Interrupt => 0x04,
            Flags::Decimal => 0x08,
            Flags::Break => 0x10,
            Flags::Unused => 0x20,
            Flags::Overflow => 0x40,
            Flags::Negative => 0x80,
        }
    }
}

/// Whether `flag` is set in the status byte `p`.
pub open spec fn flag(p: u8, flag: Flags) -> bool {
    p & flag.mask() != 0
}

/// The status byte `p` with `flag` set to `val` and every other bit kept.
pub open spec fn with_flag(p: u8, flag: Flags, val: bool) -> u8 {
    if val {
        p | flag.mask()
    } else {
        p & !flag.mask()
    }
}

/// The status byte `p` with Z and N taken from `byte`.
pub open spec fn with_zn(p: u8, byte: u8) -> u8 {
    with_flag(with_flag(p, Flags::Zero, byte == 0), Flags::Negative, byte >= 0x80)
}

/// The copy of `p` that goes on the stack: U is set, and B says whether
/// software (PHP, BRK) or an interrupt pushes it.
pub open spec fn pushed(p: u8, software: bool) -> u8 {
    with_flag(with_flag(p, Flags::Break, software), Flags::Unused, true)
}

/// The status register after `byte` is pulled into it: B is dropped and U is set.
pub open spec fn pulled(byte: u8) -> u8 {
    with_flag(with_flag(byte, Flags::Break, false), Flags::Unused, true)
}

/// Writing one flag of a status byte.
pub fn status_with(p: u8, flag: Flags, val: bool) -> (q: u8)
    ensures
        q == with_flag(p, flag, val),
{
    if val {
        p | flag.mask()
    } else {
        p & !flag.mask()
    }
}

/// Reading one flag of a status byte.
pub fn status_has(p: u8, which: Flags) -> (set: bool)
    ensures
        set == flag(p, which),
{
    p & which.mask() != 0
}

/// Two flags share no bit, and every flag has one.
pub proof fn lemma_masks_disjoint(f: Flags, g: Flags)
    requires
        f != g,
    ensures
        f.mask() & g.mask() == 0,
        f.mask() != 0,
{
    assert(0x01u8 & 0x02u8 == 0 && 0x01u8 & 0x04u8 == 0 && 0x01u8 & 0x08u8 == 0 && 0x01u8 & 0x10u8
        == 0 && 0x01u8 & 0x20u8 == 0 && 0x01u8 & 0x40u8 == 0 && 0x01u8 & 0x80u8 == 0 && 0x02u8
        & 0x04u8 == 0 && 0x02u8 & 0x08u8 == 0 && 0x02u8 & 0x10u8 == 0 && 0x02u8 & 0x20u8 == 0
        && 0x02u8 & 0x40u8 == 0 && 0x02u8 & 0x80u8 == 0 && 0x04u8 & 0x08u8 == 0 && 0x04u8 & 0x10u8
        == 0 && 0x04u8 & 0x20u8 == 0 && 0x04u8 & 0x40u8 == 0 && 0x04u8 & 0x80u8 == 0 && 0x08u8
        & 0x10u8 == 0 && 0x08u8 & 0x20u8 == 0 && 0x08u8 & 0x40u8 == 0 && 0x08u8 & 0x80u8 == 0
        && 0x10u8 & 0x20u8 == 0 && 0x10u8 & 0x40u8 == 0 && 0x10u8 & 0x80u8 == 0 && 0x20u8 & 0x40u8
        == 0 && 0x20u8 & 0x80u8 == 0 && 0x40u8 & 0x80u8 == 0) by (bit_vector);
    assert(forall|a: u8, b: u8| a & b == b & a) by (bit_vector);
}

/// A flag reads back as it was written, and writing it changes no other flag.
pub broadcast proof fn lemma_flag_of_with_flag(p: u8, f: Flags, val: bool, g: Flags)
    ensures
        #[trigger] flag(with_flag(p, f, val), g) == (if f == g {
            val
        } else {
            flag(p, g)
        }),
{
    let m = f.mask();
    let n = g.mask();
    if f == g {
        assert(m != 0);
        assert((p | m) & m == m) by (bit_vector);
        assert((p & !m) & m == 0) by (bit_vector);
    } else {
        lemma_masks_disjoint(f, g);
        assert((p | m) & n == p & n) by (bit_vector)
            requires
                m & n == 0,
        ;
        assert((p & !m) & n == p & n) by (bit_vector)
            requires
                m & n == 0,
        ;
    }
}

} // verus!
