//! Instruction decode and the per-opcode state transitions.
//!
//! Each opcode's effect is stated as a spec-level transition on the
//! machine's mathematical `State`; the executable handlers are proved to
//! implement those transitions exactly, and `Vm::step` composes them into
//! one fetch-decode-execute step described by `spec_step`.

use vstd::prelude::*;

use crate::address::Address;
use crate::address::Mem;
use crate::address::Reg;
use crate::address::spec_classify;
use crate::address::spec_resolve;
use crate::environment::Memory;
use crate::machine::spec_write_address;
use crate::machine::State;
use crate::machine::StepOutcome;
use crate::machine::Vm;
use crate::math::spec_add;
use crate::math::spec_and;
use crate::math::spec_mul;
use crate::math::spec_not;
use crate::math::spec_or;
use crate::math::spec_rem;
use crate::math::SynacoreValue;

verus! {

/// The operation selected by the numeric code at the program counter.
/// Codes 0 through 21 name the defined operations; any other word is
/// `Unknown`.
#[derive(Debug, Clone, Copy, PartialEq, Eq, Structural)]
pub enum OpCode {
    Halt,
    SetRegister,
    Push,
    Pop,
    Equals,
    GreaterThan,
    JumpTo,
    JumpIfTruthy,
    JumpIfFalsy,
    Add,
    Multiply,
    Modulo,
    And,
    Or,
    Not,
    ReadMemoryTo,
    WriteMemoryFrom,
    Call,
    Return,
    Out,
    In,
    Noop,
    Unknown,
}

/// Which operation a code word selects.
pub open spec fn spec_opcode(code: u16) -> OpCode {
    if code == 0 {
        OpCode::Halt
    } else if code == 1 {
        OpCode::SetRegister
    } else if code == 2 {
        OpCode::Push
    } else if code == 3 {
        OpCode::Pop
    } else if code == 4 {
        OpCode::Equals
    } else if code == 5 {
        OpCode::GreaterThan
    } else if code == 6 {
        OpCode::JumpTo
    } else if code == 7 {
        OpCode::JumpIfTruthy
    } else if code == 8 {
        OpCode::JumpIfFalsy
    } else if code == 9 {
        OpCode::Add
    } else if code == 10 {
        OpCode::Multiply
    } else if code == 11 {
        OpCode::Modulo
    } else if code == 12 {
        OpCode::And
    } else if code == 13 {
        OpCode::Or
    } else if code == 14 {
        OpCode::Not
    } else if code == 15 {
        OpCode::ReadMemoryTo
    } else if code == 16 {
        OpCode::WriteMemoryFrom
    } else if code == 17 {
        OpCode::Call
    } else if code == 18 {
        OpCode::Return
    } else if code == 19 {
        OpCode::Out
    } else if code == 20 {
        OpCode::In
    } else if code == 21 {
        OpCode::Noop
    } else {
        OpCode::Unknown
    }
}

/// How many operand words follow the opcode word.
pub open spec fn spec_arity(op: OpCode) -> int {
    match op {
        OpCode::Halt => 0,
        OpCode::SetRegister => 2,
        OpCode::Push => 1,
        OpCode::Pop => 1,
        OpCode::Equals => 3,
        OpCode::GreaterThan => 3,
        OpCode::JumpTo => 1,
        OpCode::JumpIfTruthy => 2,
        OpCode::JumpIfFalsy => 2,
        OpCode::Add => 3,
        OpCode::Multiply => 3,
        OpCode::Modulo => 3,
        OpCode::And => 3,
        OpCode::Or => 3,
        OpCode::Not => 2,
        OpCode::ReadMemoryTo => 2,
        OpCode::WriteMemoryFrom => 2,
        OpCode::Call => 1,
        OpCode::Return => 0,
        OpCode::Out => 1,
        OpCode::In => 1,
        OpCode::Noop => 0,
        OpCode::Unknown => 0,
    }
}

/// set: the register selected by the first operand receives the second
/// operand's resolved value; the program counter advances past the operands.
pub open spec fn spec_step_set(s: State) -> State {
    let a = s.mem[s.pc as int + 1];
    let b = s.mem[s.pc as int + 2];
    State {
        regs: s.regs.update(a as int % 8, spec_resolve(s.regs, b)),
        pc: (s.pc + 3) as u16,
        ..s
    }
}

/// push: the operand's resolved value goes on top of the stack.
pub open spec fn spec_step_push(s: State) -> State {
    let a = s.mem[s.pc as int + 1];
    State { stack: s.stack.push(spec_resolve(s.regs, a)), pc: (s.pc + 2) as u16, ..s }
}

/// pop: the top of the stack moves to the destination the first operand
/// classifies as; an empty stack is fatal and changes nothing.
pub open spec fn spec_step_pop(s: State) -> (State, StepOutcome) {
    if s.stack.len() == 0 {
        (s, StepOutcome::StackUnderflow)
    } else {
        let a = s.mem[s.pc as int + 1];
        let t = spec_write_address(s, spec_classify(a), s.stack.last());
        (State { stack: s.stack.drop_last(), pc: (s.pc + 2) as u16, ..t }, StepOutcome::Continue)
    }
}

/// eq: the destination receives 1 when the two resolved operands are equal,
/// 0 otherwise — never any other value.
pub open spec fn spec_step_eq(s: State) -> State {
    let a = s.mem[s.pc as int + 1];
    let b = spec_resolve(s.regs, s.mem[s.pc as int + 2]);
    let c = spec_resolve(s.regs, s.mem[s.pc as int + 3]);
    let v: u16 = if b == c { 1 } else { 0 };
    State { pc: (s.pc + 4) as u16, ..spec_write_address(s, spec_classify(a), v) }
}

/// gt: the destination receives 1 when the second resolved operand is
/// greater than the third, 0 otherwise.
pub open spec fn spec_step_gt(s: State) -> State {
    let a = s.mem[s.pc as int + 1];
    let b = spec_resolve(s.regs, s.mem[s.pc as int + 2]);
    let c = spec_resolve(s.regs, s.mem[s.pc as int + 3]);
    let v: u16 = if b > c { 1 } else { 0 };
    State { pc: (s.pc + 4) as u16, ..spec_write_address(s, spec_classify(a), v) }
}

/// jmp: control transfers to the operand's resolved value.
pub open spec fn spec_step_jmp(s: State) -> State {
    let a = s.mem[s.pc as int + 1];
    State { pc: spec_resolve(s.regs, a), ..s }
}

/// jt: control transfers to the second operand's resolved value when the
/// first resolves to a nonzero value; otherwise the counter advances.
pub open spec fn spec_step_jt(s: State) -> State {
    let a = spec_resolve(s.regs, s.mem[s.pc as int + 1]);
    let b = spec_resolve(s.regs, s.mem[s.pc as int + 2]);
    if a != 0 {
        State { pc: b, ..s }
    } else {
        State { pc: (s.pc + 3) as u16, ..s }
    }
}

/// jf: control transfers to the second operand's resolved value when the
/// first resolves to zero; otherwise the counter advances.
pub open spec fn spec_step_jf(s: State) -> State {
    let a = spec_resolve(s.regs, s.mem[s.pc as int + 1]);
    let b = spec_resolve(s.regs, s.mem[s.pc as int + 2]);
    if a == 0 {
        State { pc: b, ..s }
    } else {
        State { pc: (s.pc + 3) as u16, ..s }
    }
}

/// add: the destination receives the sum of the two resolved operands,
/// modulo 32768.
pub open spec fn spec_step_add(s: State) -> State {
    let a = s.mem[s.pc as int + 1];
    let b = spec_resolve(s.regs, s.mem[s.pc as int + 2]);
    let c = spec_resolve(s.regs, s.mem[s.pc as int + 3]);
    State { pc: (s.pc + 4) as u16, ..spec_write_address(s, spec_classify(a), spec_add(b, c)) }
}

/// mult: the destination receives the product of the two resolved operands,
/// modulo 32768.
pub open spec fn spec_step_mult(s: State) -> State {
    let a = s.mem[s.pc as int + 1];
    let b = spec_resolve(s.regs, s.mem[s.pc as int + 2]);
    let c = spec_resolve(s.regs, s.mem[s.pc as int + 3]);
    State { pc: (s.pc + 4) as u16, ..spec_write_address(s, spec_classify(a), spec_mul(b, c)) }
}

/// mod: the destination receives the remainder of the second resolved
/// operand divided by the third; a zero divisor is fatal and changes
/// nothing.
pub open spec fn spec_step_modulo(s: State) -> (State, StepOutcome) {
    let a = s.mem[s.pc as int + 1];
    let b = spec_resolve(s.regs, s.mem[s.pc as int + 2]);
    let c = spec_resolve(s.regs, s.mem[s.pc as int + 3]);
    if c == 0 {
        (s, StepOutcome::DivisionByZero)
    } else {
        (
            State { pc: (s.pc + 4) as u16, ..spec_write_address(s, spec_classify(a), spec_rem(b, c)) },
            StepOutcome::Continue,
        )
    }
}

/// and: the destination receives the bitwise and of the two resolved
/// operands, modulo 32768.
pub open spec fn spec_step_and(s: State) -> State {
    let a = s.mem[s.pc as int + 1];
    let b = spec_resolve(s.regs, s.mem[s.pc as int + 2]);
    let c = spec_resolve(s.regs, s.mem[s.pc as int + 3]);
    State { pc: (s.pc + 4) as u16, ..spec_write_address(s, spec_classify(a), spec_and(b, c)) }
}

/// or: the destination receives the bitwise or of the two resolved
/// operands, modulo 32768.
pub open spec fn spec_step_or(s: State) -> State {
    let a = s.mem[s.pc as int + 1];
    let b = spec_resolve(s.regs, s.mem[s.pc as int + 2]);
    let c = spec_resolve(s.regs, s.mem[s.pc as int + 3]);
    State { pc: (s.pc + 4) as u16, ..spec_write_address(s, spec_classify(a), spec_or(b, c)) }
}

/// not: the destination receives the 15-bit complement of the resolved
/// operand.
pub open spec fn spec_step_not(s: State) -> State {
    let a = s.mem[s.pc as int + 1];
    let b = spec_resolve(s.regs, s.mem[s.pc as int + 2]);
    State { pc: (s.pc + 3) as u16, ..spec_write_address(s, spec_classify(a), spec_not(b)) }
}

/// rmem: the destination receives the memory word at the address the second
/// operand resolves to; an address outside memory is fatal.
pub open spec fn spec_step_rmem(s: State) -> (State, StepOutcome) {
    let a = s.mem[s.pc as int + 1];
    let src = spec_resolve(s.regs, s.mem[s.pc as int + 2]);
    if src >= 32768 {
        (s, StepOutcome::OutOfBounds)
    } else {
        (
            State { pc: (s.pc + 3) as u16, ..spec_write_address(s, spec_classify(a), s.mem[src as int]) },
            StepOutcome::Continue,
        )
    }
}

/// wmem: the memory cell at the address the first operand resolves to
/// receives the second operand's resolved value; an address outside memory
/// is fatal.
pub open spec fn spec_step_wmem(s: State) -> (State, StepOutcome) {
    let dest = spec_resolve(s.regs, s.mem[s.pc as int + 1]);
    let v = spec_resolve(s.regs, s.mem[s.pc as int + 2]);
    if dest >= 32768 {
        (s, StepOutcome::OutOfBounds)
    } else {
        (
            State { mem: s.mem.update(dest as int, v), pc: (s.pc + 3) as u16, ..s },
            StepOutcome::Continue,
        )
    }
}

/// call: the address of the next instruction goes on the stack and control
/// transfers to the operand's resolved value.
pub open spec fn spec_step_call(s: State) -> State {
    let a = s.mem[s.pc as int + 1];
    State {
        stack: s.stack.push((s.pc + 2) as u16),
        pc: spec_resolve(s.regs, a),
        ..s
    }
}

/// ret: control transfers to the address popped from the stack; an empty
/// stack terminates cleanly, changing nothing.
pub open spec fn spec_step_ret(s: State) -> (State, StepOutcome) {
    if s.stack.len() == 0 {
        (s, StepOutcome::Halt)
    } else {
        (State { stack: s.stack.drop_last(), pc: s.stack.last(), ..s }, StepOutcome::Continue)
    }
}

/// out: the low 8 bits of the resolved operand are reported for the console
/// and the counter advances.
pub open spec fn spec_step_out(s: State) -> (State, StepOutcome) {
    let a = spec_resolve(s.regs, s.mem[s.pc as int + 1]);
    (
        State { pc: (s.pc + 2) as u16, ..s },
        StepOutcome::Output { ch: (a % 256) as u8 },
    )
}

/// in: the head of the input queue moves to the destination the operand
/// classifies as; with no buffered input, nothing changes and the caller is
/// asked for a line.
pub open spec fn spec_step_in(s: State) -> (State, StepOutcome) {
    if s.input.len() == 0 {
        (s, StepOutcome::NeedInput)
    } else {
        let a = s.mem[s.pc as int + 1];
        let t = spec_write_address(s, spec_classify(a), s.input.first());
        (
            State { input: s.input.drop_first(), pc: (s.pc + 2) as u16, ..t },
            StepOutcome::Continue,
        )
    }
}

/// noop: only the program counter advances.
pub open spec fn spec_step_noop(s: State) -> State {
    State { pc: (s.pc + 1) as u16, ..s }
}

/// One fetch-decode-execute step of the machine. A program counter outside
/// memory, or an instruction whose operands would lie outside memory, is
/// fatal and changes nothing; otherwise the opcode's own transition applies.
/// An unknown code skips exactly one word, since its operand width is
/// unknown.
pub open spec fn spec_step(s: State) -> (State, StepOutcome) {
    if s.pc >= 32768 {
        (s, StepOutcome::OutOfBounds)
    } else {
        let code = s.mem[s.pc as int];
        let op = spec_opcode(code);
        if s.pc + spec_arity(op) >= 32768 {
            (s, StepOutcome::OutOfBounds)
        } else {
            match op {
                OpCode::Halt => (s, StepOutcome::Halt),
                OpCode::SetRegister => (spec_step_set(s), StepOutcome::Continue),
                OpCode::Push => (spec_step_push(s), StepOutcome::Continue),
                OpCode::Pop => spec_step_pop(s),
                OpCode::Equals => (spec_step_eq(s), StepOutcome::Continue),
                OpCode::GreaterThan => (spec_step_gt(s), StepOutcome::Continue),
                OpCode::JumpTo => (spec_step_jmp(s), StepOutcome::Continue),
                OpCode::JumpIfTruthy => (spec_step_jt(s), StepOutcome::Continue),
                OpCode::JumpIfFalsy => (spec_step_jf(s), StepOutcome::Continue),
                OpCode::Add => (spec_step_add(s), StepOutcome::Continue),
                OpCode::Multiply => (spec_step_mult(s), StepOutcome::Continue),
                OpCode::Modulo => spec_step_modulo(s),
                OpCode::And => (spec_step_and(s), StepOutcome::Continue),
                OpCode::Or => (spec_step_or(s), StepOutcome::Continue),
                OpCode::Not => (spec_step_not(s), StepOutcome::Continue),
                OpCode::ReadMemoryTo => spec_step_rmem(s),
                OpCode::WriteMemoryFrom => spec_step_wmem(s),
                OpCode::Call => (spec_step_call(s), StepOutcome::Continue),
                OpCode::Return => spec_step_ret(s),
                OpCode::Out => spec_step_out(s),
                OpCode::In => spec_step_in(s),
                OpCode::Noop => (spec_step_noop(s), StepOutcome::Continue),
                OpCode::Unknown => (
                    State { pc: (s.pc + 1) as u16, ..s },
                    StepOutcome::UnknownOpcode { code },
                ),
            }
        }
    }
}

impl OpCode {
    /// The operation a code word selects; codes above 21 decode to
    /// `Unknown`.
    pub fn decode(code: u16) -> (r: OpCode)
        ensures
            r == spec_opcode(code),
    {
        match code {
            0 => OpCode::Halt,
            1 => OpCode::SetRegister,
            2 => OpCode::Push,
            3 => OpCode::Pop,
            4 => OpCode::Equals,
            5 => OpCode::GreaterThan,
            6 => OpCode::JumpTo,
            7 => OpCode::JumpIfTruthy,
            8 => OpCode::JumpIfFalsy,
            9 => OpCode::Add,
            10 => OpCode::Multiply,
            11 => OpCode::Modulo,
            12 => OpCode::And,
            13 => OpCode::Or,
            14 => OpCode::Not,
            15 => OpCode::ReadMemoryTo,
            16 => OpCode::WriteMemoryFrom,
            17 => OpCode::Call,
            18 => OpCode::Return,
            19 => OpCode::Out,
            20 => OpCode::In,
            21 => OpCode::Noop,
            _ => OpCode::Unknown,
        }
    }
}

/// The one operand word following the opcode at `position`.
pub struct SingleArg(pub u16);

impl SingleArg {
    /// Fetch the operand from memory.
    pub fn fetch(memory: &Memory<32768>, position: u16) -> (r: SingleArg)
        requires
            memory.wf(),
            position + 1 < 32768,
        ensures
            r.0 == memory@[position as int + 1],
    {
        SingleArg(memory.read(position + 1))
    }
}

/// The two operand words following the opcode at `position`.
pub struct DoubleArg(pub u16, pub u16);

impl DoubleArg {
    /// Fetch both operands from memory.
    pub fn fetch(memory: &Memory<32768>, position: u16) -> (r: DoubleArg)
        requires
            memory.wf(),
            position + 2 < 32768,
        ensures
            r.0 == memory@[position as int + 1],
            r.1 == memory@[position as int + 2],
    {
        DoubleArg(memory.read(position + 1), memory.read(position + 2))
    }
}

/// The three operand words following the opcode at `position`.
pub struct TripleArg(pub u16, pub u16, pub u16);

impl TripleArg {
    /// Fetch all three operands from memory.
    pub fn fetch(memory: &Memory<32768>, position: u16) -> (r: TripleArg)
        requires
            memory.wf(),
            position + 3 < 32768,
        ensures
            r.0 == memory@[position as int + 1],
            r.1 == memory@[position as int + 2],
            r.2 == memory@[position as int + 3],
    {
        TripleArg(memory.read(position + 1), memory.read(position + 2), memory.read(position + 3))
    }
}

/// set: store the second operand's resolved value in the register the first
/// operand selects.
pub fn set(vm: &mut Vm, args: DoubleArg)
    requires
        old(vm).wf(),
        old(vm).pc + 2 < 32768,
        args.0 == old(vm)@.mem[old(vm).pc as int + 1],
        args.1 == old(vm)@.mem[old(vm).pc as int + 2],
    ensures
        final(vm).wf(),
        final(vm)@ == spec_step_set(old(vm)@),
{
    let destination = Reg::select(args.0);
    let value = SynacoreValue::resolve(args.1, &vm.registers);
    vm.registers.write(destination.address, value.0);
    vm.pc = vm.pc + 3;
}

/// push: put the operand's resolved value on top of the stack.
pub fn push(vm: &mut Vm, args: SingleArg)
    requires
        old(vm).wf(),
        old(vm).pc + 1 < 32768,
        args.0 == old(vm)@.mem[old(vm).pc as int + 1],
    ensures
        final(vm).wf(),
        final(vm)@ == spec_step_push(old(vm)@),
{
    let value = SynacoreValue::resolve(args.0, &vm.registers);
    vm.stack.push(value.0);
    vm.pc = vm.pc + 2;
}

/// pop: move the top of the stack to the destination the operand classifies
/// as; an empty stack is fatal and changes nothing.
pub fn pop(vm: &mut Vm, args: SingleArg) -> (r: StepOutcome)
    requires
        old(vm).wf(),
        old(vm).pc + 1 < 32768,
        args.0 == old(vm)@.mem[old(vm).pc as int + 1],
    ensures
        final(vm).wf(),
        final(vm)@ == spec_step_pop(old(vm)@).0,
        r == spec_step_pop(old(vm)@).1,
{
    let destination = Address::classify(args.0);
    match vm.stack.pop() {
        Some(value) => {
            destination.write(value, &mut vm.memory, &mut vm.registers);
            vm.pc = vm.pc + 2;
            StepOutcome::Continue
        },
        None => StepOutcome::StackUnderflow,
    }
}

/// eq: store 1 in the destination when the two resolved operands are equal,
/// 0 otherwise.
pub fn eq(vm: &mut Vm, args: TripleArg)
    requires
        old(vm).wf(),
        old(vm).pc + 3 < 32768,
        args.0 == old(vm)@.mem[old(vm).pc as int + 1],
        args.1 == old(vm)@.mem[old(vm).pc as int + 2],
        args.2 == old(vm)@.mem[old(vm).pc as int + 3],
    ensures
        final(vm).wf(),
        final(vm)@ == spec_step_eq(old(vm)@),
{
    let destination = Address::classify(args.0);
    let lhs = SynacoreValue::resolve(args.1, &vm.registers);
    let rhs = SynacoreValue::resolve(args.2, &vm.registers);
    let value: u16 = if lhs == rhs {
        1
    } else {
        0
    };
    destination.write(value, &mut vm.memory, &mut vm.registers);
    vm.pc = vm.pc + 4;
}

/// gt: store 1 in the destination when the second resolved operand is
/// greater than the third, 0 otherwise.
pub fn gt(vm: &mut Vm, args: TripleArg)
    requires
        old(vm).wf(),
        old(vm).pc + 3 < 32768,
        args.0 == old(vm)@.mem[old(vm).pc as int + 1],
        args.1 == old(vm)@.mem[old(vm).pc as int + 2],
        args.2 == old(vm)@.mem[old(vm).pc as int + 3],
    ensures
        final(vm).wf(),
        final(vm)@ == spec_step_gt(old(vm)@),
{
    let destination = Address::classify(args.0);
    let lhs = SynacoreValue::resolve(args.1, &vm.registers);
    let rhs = SynacoreValue::resolve(args.2, &vm.registers);
    let value: u16 = if lhs.0 > rhs.0 {
        1
    } else {
        0
    };
    destination.write(value, &mut vm.memory, &mut vm.registers);
    vm.pc = vm.pc + 4;
}

/// jmp: transfer control to the operand's resolved value.
pub fn jmp(vm: &mut Vm, args: SingleArg)
    requires
        old(vm).wf(),
        old(vm).pc + 1 < 32768,
        args.0 == old(vm)@.mem[old(vm).pc as int + 1],
    ensures
        final(vm).wf(),
        final(vm)@ == spec_step_jmp(old(vm)@),
{
    let target = SynacoreValue::resolve(args.0, &vm.registers);
    vm.pc = target.0;
}

/// jt: transfer control to the second operand's resolved value when the
/// first resolves to a nonzero value.
pub fn jt(vm: &mut Vm, args: DoubleArg)
    requires
        old(vm).wf(),
        old(vm).pc + 2 < 32768,
        args.0 == old(vm)@.mem[old(vm).pc as int + 1],
        args.1 == old(vm)@.mem[old(vm).pc as int + 2],
    ensures
        final(vm).wf(),
        final(vm)@ == spec_step_jt(old(vm)@),
{
    let check = SynacoreValue::resolve(args.0, &vm.registers);
    let target = SynacoreValue::resolve(args.1, &vm.registers);
    if check.0 != 0 {
        vm.pc = target.0;
    } else {
        vm.pc = vm.pc + 3;
    }
}

/// jf: transfer control to the second operand's resolved value when the
/// first resolves to zero.
pub fn jf(vm: &mut Vm, args: DoubleArg)
    requires
        old(vm).wf(),
        old(vm).pc + 2 < 32768,
        args.0 == old(vm)@.mem[old(vm).pc as int + 1],
        args.1 == old(vm)@.mem[old(vm).pc as int + 2],
    ensures
        final(vm).wf(),
        final(vm)@ == spec_step_jf(old(vm)@),
{
    let check = SynacoreValue::resolve(args.0, &vm.registers);
    let target = SynacoreValue::resolve(args.1, &vm.registers);
    if check.0 == 0 {
        vm.pc = target.0;
    } else {
        vm.pc = vm.pc + 3;
    }
}

/// add: store the sum of the two resolved operands, modulo 32768.
pub fn add(vm: &mut Vm, args: TripleArg)
    requires
        old(vm).wf(),
        old(vm).pc + 3 < 32768,
        args.0 == old(vm)@.mem[old(vm).pc as int + 1],
        args.1 == old(vm)@.mem[old(vm).pc as int + 2],
        args.2 == old(vm)@.mem[old(vm).pc as int + 3],
    ensures
        final(vm).wf(),
        final(vm)@ == spec_step_add(old(vm)@),
{
    let destination = Address::classify(args.0);
    let lhs = SynacoreValue::resolve(args.1, &vm.registers);
    let rhs = SynacoreValue::resolve(args.2, &vm.registers);
    let value = lhs.add(rhs);
    destination.write(value.0, &mut vm.memory, &mut vm.registers);
    vm.pc = vm.pc + 4;
}

/// mult: store the product of the two resolved operands, modulo 32768.
pub fn mult(vm: &mut Vm, args: TripleArg)
    requires
        old(vm).wf(),
        old(vm).pc + 3 < 32768,
        args.0 == old(vm)@.mem[old(vm).pc as int + 1],
        args.1 == old(vm)@.mem[old(vm).pc as int + 2],
        args.2 == old(vm)@.mem[old(vm).pc as int + 3],
    ensures
        final(vm).wf(),
        final(vm)@ == spec_step_mult(old(vm)@),
{
    let destination = Address::classify(args.0);
    let lhs = SynacoreValue::resolve(args.1, &vm.registers);
    let rhs = SynacoreValue::resolve(args.2, &vm.registers);
    let value = lhs.mul(rhs);
    destination.write(value.0, &mut vm.memory, &mut vm.registers);
    vm.pc = vm.pc + 4;
}

/// mod: store the remainder of the second resolved operand divided by the
/// third; a zero divisor is fatal and changes nothing.
pub fn modulo(vm: &mut Vm, args: TripleArg) -> (r: StepOutcome)
    requires
        old(vm).wf(),
        old(vm).pc + 3 < 32768,
        args.0 == old(vm)@.mem[old(vm).pc as int + 1],
        args.1 == old(vm)@.mem[old(vm).pc as int + 2],
        args.2 == old(vm)@.mem[old(vm).pc as int + 3],
    ensures
        final(vm).wf(),
        final(vm)@ == spec_step_modulo(old(vm)@).0,
        r == spec_step_modulo(old(vm)@).1,
{
    let destination = Address::classify(args.0);
    let lhs = SynacoreValue::resolve(args.1, &vm.registers);
    let rhs = SynacoreValue::resolve(args.2, &vm.registers);
    if rhs.0 == 0 {
        return StepOutcome::DivisionByZero;
    }
    let value = lhs.rem(rhs);
    destination.write(value.0, &mut vm.memory, &mut vm.registers);
    vm.pc = vm.pc + 4;
    StepOutcome::Continue
}

/// and: store the bitwise and of the two resolved operands, modulo 32768.
pub fn and(vm: &mut Vm, args: TripleArg)
    requires
        old(vm).wf(),
        old(vm).pc + 3 < 32768,
        args.0 == old(vm)@.mem[old(vm).pc as int + 1],
        args.1 == old(vm)@.mem[old(vm).pc as int + 2],
        args.2 == old(vm)@.mem[old(vm).pc as int + 3],
    ensures
        final(vm).wf(),
        final(vm)@ == spec_step_and(old(vm)@),
{
    let destination = Address::classify(args.0);
    let lhs = SynacoreValue::resolve(args.1, &vm.registers);
    let rhs = SynacoreValue::resolve(args.2, &vm.registers);
    let value = lhs.bitand(rhs);
    destination.write(value.0, &mut vm.memory, &mut vm.registers);
    vm.pc = vm.pc + 4;
}

/// or: store the bitwise or of the two resolved operands, modulo 32768.
pub fn or(vm: &mut Vm, args: TripleArg)
    requires
        old(vm).wf(),
        old(vm).pc + 3 < 32768,
        args.0 == old(vm)@.mem[old(vm).pc as int + 1],
        args.1 == old(vm)@.mem[old(vm).pc as int + 2],
        args.2 == old(vm)@.mem[old(vm).pc as int + 3],
    ensures
        final(vm).wf(),
        final(vm)@ == spec_step_or(old(vm)@),
{
    let destination = Address::classify(args.0);
    let lhs = SynacoreValue::resolve(args.1, &vm.registers);
    let rhs = SynacoreValue::resolve(args.2, &vm.registers);
    let value = lhs.bitor(rhs);
    destination.write(value.0, &mut vm.memory, &mut vm.registers);
    vm.pc = vm.pc + 4;
}

/// not: store the 15-bit complement of the resolved operand.
pub fn not(vm: &mut Vm, args: DoubleArg)
    requires
        old(vm).wf(),
        old(vm).pc + 2 < 32768,
        args.0 == old(vm)@.mem[old(vm).pc as int + 1],
        args.1 == old(vm)@.mem[old(vm).pc as int + 2],
    ensures
        final(vm).wf(),
        final(vm)@ == spec_step_not(old(vm)@),
{
    let destination = Address::classify(args.0);
    let value = SynacoreValue::resolve(args.1, &vm.registers);
    let complement = value.not();
    destination.write(complement.0, &mut vm.memory, &mut vm.registers);
    vm.pc = vm.pc + 3;
}

/// rmem: store the memory word at the address the second operand resolves
/// to; an address outside memory is fatal and changes nothing.
pub fn rmem(vm: &mut Vm, args: DoubleArg) -> (r: StepOutcome)
    requires
        old(vm).wf(),
        old(vm).pc + 2 < 32768,
        args.0 == old(vm)@.mem[old(vm).pc as int + 1],
        args.1 == old(vm)@.mem[old(vm).pc as int + 2],
    ensures
        final(vm).wf(),
        final(vm)@ == spec_step_rmem(old(vm)@).0,
        r == spec_step_rmem(old(vm)@).1,
{
    let destination = Address::classify(args.0);
    let target = Mem::locate(args.1, &vm.registers);
    if target.address >= 32768 {
        return StepOutcome::OutOfBounds;
    }
    let value = target.read(&vm.memory);
    destination.write(value, &mut vm.memory, &mut vm.registers);
    vm.pc = vm.pc + 3;
    StepOutcome::Continue
}

/// wmem: store the second operand's resolved value in the memory cell at
/// the address the first operand resolves to; an address outside memory is
/// fatal and changes nothing.
pub fn wmem(vm: &mut Vm, args: DoubleArg) -> (r: StepOutcome)
    requires
        old(vm).wf(),
        old(vm).pc + 2 < 32768,
        args.0 == old(vm)@.mem[old(vm).pc as int + 1],
        args.1 == old(vm)@.mem[old(vm).pc as int + 2],
    ensures
        final(vm).wf(),
        final(vm)@ == spec_step_wmem(old(vm)@).0,
        r == spec_step_wmem(old(vm)@).1,
{
    let destination = Mem::locate(args.0, &vm.registers);
    let value = SynacoreValue::resolve(args.1, &vm.registers);
    if destination.address >= 32768 {
        return StepOutcome::OutOfBounds;
    }
    destination.write(value.0, &mut vm.memory);
    vm.pc = vm.pc + 3;
    StepOutcome::Continue
}

/// call: push the address of the next instruction on the stack and transfer
/// control to the operand's resolved value.
pub fn call(vm: &mut Vm, args: SingleArg)
    requires
        old(vm).wf(),
        old(vm).pc + 1 < 32768,
        args.0 == old(vm)@.mem[old(vm).pc as int + 1],
    ensures
        final(vm).wf(),
        final(vm)@ == spec_step_call(old(vm)@),
{
    let target = SynacoreValue::resolve(args.0, &vm.registers);
    vm.stack.push(vm.pc + 2);
    vm.pc = target.0;
}

/// ret: transfer control to the address popped from the stack; an empty
/// stack terminates cleanly, changing nothing.
pub fn ret(vm: &mut Vm) -> (r: StepOutcome)
    requires
        old(vm).wf(),
    ensures
        final(vm).wf(),
        final(vm)@ == spec_step_ret(old(vm)@).0,
        r == spec_step_ret(old(vm)@).1,
{
    match vm.stack.pop() {
        Some(value) => {
            vm.pc = value;
            StepOutcome::Continue
        },
        None => StepOutcome::Halt,
    }
}

/// out: report the low 8 bits of the resolved operand for the console.
pub fn out(vm: &mut Vm, args: SingleArg) -> (r: StepOutcome)
    requires
        old(vm).wf(),
        old(vm).pc + 1 < 32768,
        args.0 == old(vm)@.mem[old(vm).pc as int + 1],
    ensures
        final(vm).wf(),
        final(vm)@ == spec_step_out(old(vm)@).0,
        r == spec_step_out(old(vm)@).1,
{
    let char_code = SynacoreValue::resolve(args.0, &vm.registers);
    vm.pc = vm.pc + 2;
    StepOutcome::Output { ch: (char_code.0 % 256) as u8 }
}

/// in: move the head of the buffered input to the destination the operand
/// classifies as; with no buffered input, change nothing and ask the caller
/// for a line.
pub fn inp(vm: &mut Vm, args: SingleArg) -> (r: StepOutcome)
    requires
        old(vm).wf(),
        old(vm).pc + 1 < 32768,
        args.0 == old(vm)@.mem[old(vm).pc as int + 1],
    ensures
        final(vm).wf(),
        final(vm)@ == spec_step_in(old(vm)@).0,
        r == spec_step_in(old(vm)@).1,
{
    if vm.input.len() == 0 {
        return StepOutcome::NeedInput;
    }
    let next_char = vm.input.remove(0);
    proof {
        assert(vm.input@ =~= old(vm).input@.drop_first());
    }
    let destination = Address::classify(args.0);
    destination.write(next_char, &mut vm.memory, &mut vm.registers);
    vm.pc = vm.pc + 2;
    StepOutcome::Continue
}

/// noop: advance past the opcode and do nothing else.
pub fn noop(vm: &mut Vm)
    requires
        old(vm).wf(),
        old(vm).pc < 32768,
    ensures
        final(vm).wf(),
        final(vm)@ == spec_step_noop(old(vm)@),
{
    vm.pc = vm.pc + 1;
}

impl OpCode {
    /// Dispatch one decoded operation: fetch its operands, apply its state
    /// transition, and report the outcome. Operands that would lie outside
    /// memory make the step fatal without a state change.
    pub fn execute(self, vm: &mut Vm) -> (r: StepOutcome)
        requires
            old(vm).wf(),
            old(vm).pc < 32768,
            self == spec_opcode(old(vm)@.mem[old(vm).pc as int]),
        ensures
            final(vm).wf(),
            final(vm)@ == spec_step(old(vm)@).0,
            r == spec_step(old(vm)@).1,
    {
        match self {
            OpCode::Halt => StepOutcome::Halt,
            OpCode::SetRegister => {
                if vm.pc + 2 >= 32768 {
                    return StepOutcome::OutOfBounds;
                }
                let args = DoubleArg::fetch(&vm.memory, vm.pc);
                set(vm, args);
                StepOutcome::Continue
            },
            OpCode::Push => {
                if vm.pc + 1 >= 32768 {
                    return StepOutcome::OutOfBounds;
                }
                let args = SingleArg::fetch(&vm.memory, vm.pc);
                push(vm, args);
                StepOutcome::Continue
            },
            OpCode::Pop => {
                if vm.pc + 1 >= 32768 {
                    return StepOutcome::OutOfBounds;
                }
                let args = SingleArg::fetch(&vm.memory, vm.pc);
                pop(vm, args)
            },
            OpCode::Equals => {
                if vm.pc + 3 >= 32768 {
                    return StepOutcome::OutOfBounds;
                }
                let args = TripleArg::fetch(&vm.memory, vm.pc);
                eq(vm, args);
                StepOutcome::Continue
            },
            OpCode::GreaterThan => {
                if vm.pc + 3 >= 32768 {
                    return StepOutcome::OutOfBounds;
                }
                let args = TripleArg::fetch(&vm.memory, vm.pc);
                gt(vm, args);
                StepOutcome::Continue
            },
            OpCode::JumpTo => {
                if vm.pc + 1 >= 32768 {
                    return StepOutcome::OutOfBounds;
                }
                let args = SingleArg::fetch(&vm.memory, vm.pc);
                jmp(vm, args);
                StepOutcome::Continue
            },
            OpCode::JumpIfTruthy => {
                if vm.pc + 2 >= 32768 {
                    return StepOutcome::OutOfBounds;
                }
                let args = DoubleArg::fetch(&vm.memory, vm.pc);
                jt(vm, args);
                StepOutcome::Continue
            },
            OpCode::JumpIfFalsy => {
                if vm.pc + 2 >= 32768 {
                    return StepOutcome::OutOfBounds;
                }
                let args = DoubleArg::fetch(&vm.memory, vm.pc);
                jf(vm, args);
                StepOutcome::Continue
            },
            OpCode::Add => {
                if vm.pc + 3 >= 32768 {
                    return StepOutcome::OutOfBounds;
                }
                let args = TripleArg::fetch(&vm.memory, vm.pc);
                crate::operations::add(vm, args);
                StepOutcome::Continue
            },
            OpCode::Multiply => {
                if vm.pc + 3 >= 32768 {
                    return StepOutcome::OutOfBounds;
                }
                let args = TripleArg::fetch(&vm.memory, vm.pc);
                mult(vm, args);
                StepOutcome::Continue
            },
            OpCode::Modulo => {
                if vm.pc + 3 >= 32768 {
                    return StepOutcome::OutOfBounds;
                }
                let args = TripleArg::fetch(&vm.memory, vm.pc);
                modulo(vm, args)
            },
            OpCode::And => {
                if vm.pc + 3 >= 32768 {
                    return StepOutcome::OutOfBounds;
                }
                let args = TripleArg::fetch(&vm.memory, vm.pc);
                and(vm, args);
                StepOutcome::Continue
            },
            OpCode::Or => {
                if vm.pc + 3 >= 32768 {
                    return StepOutcome::OutOfBounds;
                }
                let args = TripleArg::fetch(&vm.memory, vm.pc);
                or(vm, args);
                StepOutcome::Continue
            },
            OpCode::Not => {
                if vm.pc + 2 >= 32768 {
                    return StepOutcome::OutOfBounds;
                }
                let args = DoubleArg::fetch(&vm.memory, vm.pc);
                not(vm, args);
                StepOutcome::Continue
            },
            OpCode::ReadMemoryTo => {
                if vm.pc + 2 >= 32768 {
                    return StepOutcome::OutOfBounds;
                }
                let args = DoubleArg::fetch(&vm.memory, vm.pc);
                rmem(vm, args)
            },
            OpCode::WriteMemoryFrom => {
                if vm.pc + 2 >= 32768 {
                    return StepOutcome::OutOfBounds;
                }
                let args = DoubleArg::fetch(&vm.memory, vm.pc);
                wmem(vm, args)
            },
            OpCode::Call => {
                if vm.pc + 1 >= 32768 {
                    return StepOutcome::OutOfBounds;
                }
                let args = SingleArg::fetch(&vm.memory, vm.pc);
                call(vm, args);
                StepOutcome::Continue
            },
            OpCode::Return => ret(vm),
            OpCode::Out => {
                if vm.pc + 1 >= 32768 {
                    return StepOutcome::OutOfBounds;
                }
                let args = SingleArg::fetch(&vm.memory, vm.pc);
                out(vm, args)
            },
            OpCode::In => {
                if vm.pc + 1 >= 32768 {
                    return StepOutcome::OutOfBounds;
                }
                let args = SingleArg::fetch(&vm.memory, vm.pc);
                inp(vm, args)
            },
            OpCode::Noop => {
                noop(vm);
                StepOutcome::Continue
            },
            OpCode::Unknown => {
                let code = vm.memory.read(vm.pc);
                vm.pc = vm.pc + 1;
                StepOutcome::UnknownOpcode { code }
            },
        }
    }
}

impl Vm {
    /// One fetch-decode-execute step: read the opcode at the program
    /// counter, dispatch it, and report the outcome. The whole step is
    /// described by `spec_step`.
    pub fn step(&mut self) -> (r: StepOutcome)
        requires
            old(self).wf(),
        ensures
            final(self).wf(),
            final(self)@ == spec_step(old(self)@).0,
            r == spec_step(old(self)@).1,
    {
        if self.pc >= 32768 {
            return StepOutcome::OutOfBounds;
        }
        let code = self.memory.read(self.pc);
        let op = OpCode::decode(code);
        op.execute(self)
    }
}

} // verus!
