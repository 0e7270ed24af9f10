//! Operand-addressing resolution.
//!
//! A raw 16-bit operand read from memory is classified as either a memory
//! address (raw value below 32768) or a register selector (raw value 32768
//! or above, selecting register `raw mod 8`). The same cell can serve two
//! roles depending on the operand slot it occupies: as a write destination
//! it becomes an `Address`; as a data operand its resolved value is the
//! current register content when it selects a register, and the raw literal
//! otherwise.

use vstd::prelude::*;

use crate::environment::Memory;

verus! {

/// A resolved write target: either a main-memory index or a register index.
#[derive(Debug, Clone, Copy, PartialEq, Eq, Structural)]
pub enum Address {
    Reg { address: u16 },
    Mem { address: u16 },
}

/// How a raw operand classifies as a write target: values below 32768 name
/// a memory cell; values 32768 and above select the register `raw mod 8`.
pub open spec fn spec_classify(raw: u16) -> Address {
    if raw < 32768 {
        Address::Mem { address: raw }
    } else {
        Address::Reg { address: (raw % 8) as u16 }
    }
}

/// The index of an `Address` is valid for its region: memory indices are
/// below 32768 and register indices below 8.
pub open spec fn spec_address_valid(a: Address) -> bool {
    match a {
        Address::Reg { address } => address < 8,
        Address::Mem { address } => address < 32768,
    }
}

/// A data operand's effective value: register contents when the raw value
/// selects a register, the raw literal unchanged otherwise.
pub open spec fn spec_resolve(regs: Seq<u16>, raw: u16) -> u16 {
    if raw < 32768 {
        raw
    } else {
        regs[raw as int % 8]
    }
}

impl Address {
    /// Classify a raw operand as a write target. Every 16-bit input
    /// classifies successfully, and the resulting index is valid for its
    /// region.
    pub fn classify(raw: u16) -> (a: Address)
        ensures
            a == spec_classify(raw),
            spec_address_valid(a),
    {
        if raw < 32768 {
            Address::Mem { address: raw }
        } else {
            Address::Reg { address: raw % 8 }
        }
    }

    /// Store `value` at this address, in the register file or in main
    /// memory according to the region.
    pub fn write(
        &self,
        value: u16,
        memory: &mut Memory<32768>,
        registers: &mut Memory<8>,
    )
        requires
            old(memory).wf(),
            old(registers).wf(),
            spec_address_valid(*self),
        ensures
            final(memory).wf(),
            final(registers).wf(),
            *self matches Address::Mem { address } ==> final(memory)@ == old(
                memory,
            )@.update(address as int, value) && final(registers)@ == old(registers)@,
            *self matches Address::Reg { address } ==> final(registers)@ == old(
                registers,
            )@.update(address as int, value) && final(memory)@ == old(memory)@,
    {
        match self {
            Address::Reg { address } => {
                registers.write(*address, value);
            },
            Address::Mem { address } => {
                memory.write(*address, value);
            },
        }
    }
}

/// A register selector: the raw operand reduced to a register index,
/// `raw mod 8`.
#[derive(Debug, Clone, Copy, PartialEq, Eq, Structural)]
pub struct Reg {
    pub address: u16,
}

impl Reg {
    /// Reduce a raw operand to a register index.
    pub fn select(raw: u16) -> (r: Reg)
        ensures
            r.address == raw % 8,
            r.address < 8,
    {
        Reg { address: raw % 8 }
    }
}

/// A main-memory reference whose index came from a resolved operand value.
#[derive(Debug, Clone, Copy, PartialEq, Eq, Structural)]
pub struct Mem {
    pub address: u16,
}

impl Mem {
    /// Resolve a raw operand to a data value and treat that value as a
    /// main-memory index.
    pub fn locate(raw: u16, registers: &Memory<8>) -> (r: Mem)
        requires
            registers.wf(),
        ensures
            r.address == spec_resolve(registers@, raw),
    {
        Mem { address: resolve_value(raw, registers) }
    }

    /// Store `value` in main memory at this reference.
    pub fn write(&self, value: u16, memory: &mut Memory<32768>)
        requires
            old(memory).wf(),
            self.address < 32768,
        ensures
            final(memory).wf(),
            final(memory)@ == old(memory)@.update(self.address as int, value),
    {
        memory.write(self.address, value);
    }

    /// The word in main memory at this reference.
    pub fn read(&self, memory: &Memory<32768>) -> (r: u16)
        requires
            memory.wf(),
            self.address < 32768,
        ensures
            r == memory@[self.address as int],
    {
        memory.read(self.address)
    }
}

/// Resolve a raw data operand: substitute the register content when the raw
/// value selects a register, keep the literal otherwise.
pub fn resolve_value(raw: u16, registers: &Memory<8>) -> (r: u16)
    requires
        registers.wf(),
    ensures
        r == spec_resolve(registers@, raw),
{
    if raw < 32768 {
        raw
    } else {
        registers.read(raw % 8)
    }
}

} // verus!
