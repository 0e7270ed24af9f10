//! Laws of the machine that relate several operations, stated and proved
//! once and for all inputs.

use vstd::prelude::*;

use crate::address::Address;
use crate::address::spec_classify;
use crate::address::spec_resolve;
use crate::machine::state_wf;
use crate::machine::State;
use crate::machine::StepOutcome;
use crate::math::spec_add;
use crate::math::spec_and;
use crate::math::spec_mul;
use crate::math::spec_not;
use crate::math::spec_or;
use crate::operations::spec_opcode;
use crate::operations::spec_step;
use crate::operations::OpCode;

verus! {

/// Every value an arithmetic or bitwise opcode stores is 15-bit: the modulo
/// reduction (or the 15-bit complement) keeps every stored word below 32768,
/// whatever the operands were.
pub proof fn lemma_arithmetic_results_are_15_bit(a: u16, b: u16)
    ensures
        spec_add(a, b) < 32768,
        spec_mul(a, b) < 32768,
        spec_and(a, b) < 32768,
        spec_or(a, b) < 32768,
        spec_not(a) < 32768,
{
    assert(!a & 0x7fff < 32768) by (bit_vector);
}

/// For every raw operand value `v`: a value below 32768 classifies as the
/// memory address `v` itself, and any other value selects the register
/// `(v - 32768) mod 8`.
pub proof fn lemma_classify(v: u16)
    ensures
        v < 32768 ==> spec_classify(v) == (Address::Mem { address: v }),
        v >= 32768 ==> spec_classify(v) == (Address::Reg {
            address: ((v - 32768) % 8) as u16,
        }),
{
    if v >= 32768 {
        assert(v % 8 == ((v - 32768) % 8) as u16) by (bit_vector)
            requires
                v >= 32768,
        ;
    }
}

/// A value pushed on the stack is exactly what the next pop removes, and
/// the stack is then as it was before the push.
pub proof fn lemma_push_pop(stack: Seq<u16>, v: u16)
    ensures
        stack.push(v).len() > 0,
        stack.push(v).last() == v,
        stack.push(v).drop_last() == stack,
{
    assert(stack.push(v).drop_last() =~= stack);
}

/// Executing `call` at position `p` and then immediately `ret` restores the
/// program counter to `p + 2` — the address of the instruction after the
/// call — and leaves the stack as it was before the call.
pub proof fn lemma_call_ret(s: State)
    requires
        state_wf(s),
        s.pc + 1 < 32768,
        spec_opcode(s.mem[s.pc as int]) == OpCode::Call,
        spec_resolve(s.regs, s.mem[s.pc as int + 1]) < 32768,
        spec_opcode(s.mem[spec_resolve(s.regs, s.mem[s.pc as int + 1]) as int]) == OpCode::Return,
    ensures
        spec_step(s).1 == StepOutcome::Continue,
        spec_step(spec_step(s).0).1 == StepOutcome::Continue,
        spec_step(spec_step(s).0).0.pc == s.pc + 2,
        spec_step(spec_step(s).0).0.stack == s.stack,
{
    let s1 = spec_step(s).0;
    assert(s1.stack =~= s.stack.push((s.pc + 2) as u16));
    assert(s1.stack.drop_last() =~= s.stack);
}

/// Executing a `push` instruction and then the `pop` instruction that
/// follows it moves the pushed value — the resolved first operand of the
/// push — into the pop's destination, and leaves the stack as it was.
pub proof fn lemma_push_then_pop(s: State)
    requires
        state_wf(s),
        s.pc + 3 < 32768,
        spec_opcode(s.mem[s.pc as int]) == OpCode::Push,
        spec_opcode(s.mem[s.pc as int + 2]) == OpCode::Pop,
    ensures
        spec_step(s).1 == StepOutcome::Continue,
        spec_step(spec_step(s).0).1 == StepOutcome::Continue,
        spec_step(spec_step(s).0).0.stack == s.stack,
        ({
            let v = spec_resolve(s.regs, s.mem[s.pc as int + 1]);
            let t = spec_step(spec_step(s).0).0;
            match spec_classify(s.mem[s.pc as int + 3]) {
                Address::Reg { address } => t.regs[address as int] == v,
                Address::Mem { address } => t.mem[address as int] == v,
            }
        }),
{
    let v = spec_resolve(s.regs, s.mem[s.pc as int + 1]);
    let s1 = spec_step(s).0;
    assert(s1.stack =~= s.stack.push(v));
    assert(s1.stack.drop_last() =~= s.stack);
}

} // verus!
