//! Modular (wraparound) arithmetic over 15-bit machine values.
//!
//! All arithmetic results wrap at 32768: a stored result of an arithmetic
//! opcode is always below 32768. Bitwise NOT is the 15-bit complement.
//! Multiplication is computed in 32 bits before the modulo reduction so the
//! product of two 16-bit operands never overflows.

use vstd::prelude::*;

use crate::address::spec_resolve;
use crate::environment::Memory;

verus! {

/// Sum of two words, reduced modulo 32768.
pub open spec fn spec_add(a: u16, b: u16) -> u16 {
    ((a + b) % 32768) as u16
}

/// Product of two words, reduced modulo 32768.
pub open spec fn spec_mul(a: u16, b: u16) -> u16 {
    ((a * b) % 32768) as u16
}

/// Remainder of `a` divided by `b` (meaningful only for `b != 0`).
pub open spec fn spec_rem(a: u16, b: u16) -> u16 {
    (a as int % b as int) as u16
}

/// Bitwise and, reduced modulo 32768.
pub open spec fn spec_and(a: u16, b: u16) -> u16 {
    ((a & b) % 32768) as u16
}

/// Bitwise or, reduced modulo 32768.
pub open spec fn spec_or(a: u16, b: u16) -> u16 {
    ((a | b) % 32768) as u16
}

/// 15-bit bitwise complement.
pub open spec fn spec_not(a: u16) -> u16 {
    !a & 0x7fff
}

/// A 16-bit word treated as a machine value; all operations on it are
/// modulo 32768.
#[derive(Debug, Clone, Copy, PartialEq, Eq, Structural)]
pub struct SynacoreValue(pub u16);

impl SynacoreValue {
    /// A raw operand's effective data value: the contents of the selected
    /// register when the raw value is a register selector, the raw literal
    /// unchanged otherwise.
    pub fn resolve(raw: u16, registers: &Memory<8>) -> (r: Self)
        requires
            registers.wf(),
        ensures
            r.0 == spec_resolve(registers@, raw),
    {
        SynacoreValue(crate::address::resolve_value(raw, registers))
    }

    /// Sum modulo 32768, for example `32758 + 15 == 5`.
    pub fn add(self, other: Self) -> (r: Self)
        ensures
            r.0 == spec_add(self.0, other.0),
            r.0 < 32768,
    {
        let wide: u32 = self.0 as u32 + other.0 as u32;
        SynacoreValue((wide % 32768) as u16)
    }

    /// Product modulo 32768, computed in 32 bits so it cannot overflow.
    pub fn mul(self, other: Self) -> (r: Self)
        ensures
            r.0 == spec_mul(self.0, other.0),
            r.0 < 32768,
    {
        let a: u32 = self.0 as u32;
        let b: u32 = other.0 as u32;
        assert(a * b <= 0xffff * 0xffff) by (nonlinear_arith)
            requires
                a <= 0xffff,
                b <= 0xffff,
        ;
        let wide: u32 = a * b;
        SynacoreValue((wide % 32768) as u16)
    }

    /// Remainder of division; the divisor must be nonzero.
    pub fn rem(self, other: Self) -> (r: Self)
        requires
            other.0 != 0,
        ensures
            r.0 == spec_rem(self.0, other.0),
            r.0 < other.0,
    {
        SynacoreValue(self.0 % other.0)
    }

    /// Bitwise and, reduced modulo 32768.
    pub fn bitand(self, other: Self) -> (r: Self)
        ensures
            r.0 == spec_and(self.0, other.0),
            r.0 < 32768,
    {
        SynacoreValue((self.0 & other.0) % 32768)
    }

    /// Bitwise or, reduced modulo 32768.
    pub fn bitor(self, other: Self) -> (r: Self)
        ensures
            r.0 == spec_or(self.0, other.0),
            r.0 < 32768,
    {
        SynacoreValue((self.0 | other.0) % 32768)
    }

    /// 15-bit bitwise complement, so `not(0) == 32767`.
    pub fn not(self) -> (r: Self)
        ensures
            r.0 == spec_not(self.0),
            r.0 < 32768,
    {
        let a: u16 = self.0;
        assert(!a & 0x7fff < 32768) by (bit_vector);
        SynacoreValue(!a & 0x7fff)
    }
}

} // verus!
