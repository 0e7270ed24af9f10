//! The execution engine's state: main memory, the register file, the stack,
//! the buffered console input, and the program counter, owned as one value
//! and passed by mutable reference into every engine operation.

use vstd::prelude::*;

use crate::address::Address;
use crate::environment::Memory;
use crate::environment::Stack;

verus! {

/// The mathematical model of a machine: the contents of the storage regions,
/// the pending input characters, and the program counter.
#[verifier::ext_equal]
pub struct State {
    pub mem: Seq<u16>,
    pub regs: Seq<u16>,
    pub stack: Seq<u16>,
    pub input: Seq<u16>,
    pub pc: u16,
}

/// A well-formed machine has exactly 32768 memory cells and 8 registers.
pub open spec fn state_wf(s: State) -> bool {
    s.mem.len() == 32768 && s.regs.len() == 8
}

/// What one execution step asks of its caller, beyond the state change.
///
/// `Halt` covers both the halt opcode and a return with an empty stack: the
/// machine treats the latter as a controlled termination, unlike a pop from
/// an empty stack, which is fatal (`StackUnderflow`).
/// `DivisionByZero` reports a remainder opcode whose divisor resolved to
/// zero, and `OutOfBounds` a fetch or a memory access outside the 32768
/// cells; both leave the state unchanged and are fatal. `UnknownOpcode` is
/// non-fatal: the engine skips exactly one word and reports the value, so
/// the caller can log a diagnostic and continue.
#[derive(Debug, Clone, Copy, PartialEq, Eq, Structural)]
pub enum StepOutcome {
    /// The step completed; execution continues at the new program counter.
    Continue,
    /// Terminate cleanly: the halt opcode, or a return with an empty stack.
    Halt,
    /// Emit the character with this code (the low 8 bits of the resolved
    /// operand) on the console, then continue.
    Output { ch: u8 },
    /// An input opcode found no buffered character; the state is unchanged.
    /// Feed a line of input and step again.
    NeedInput,
    /// A pop opcode found the stack empty: fatal.
    StackUnderflow,
    /// A remainder opcode's divisor resolved to zero: fatal.
    DivisionByZero,
    /// The program counter or a resolved memory index fell outside the
    /// 32768 cells: fatal.
    OutOfBounds,
    /// The word at the program counter is no opcode; one word was skipped.
    UnknownOpcode { code: u16 },
}

/// The virtual machine: 32768 words of memory, 8 registers, the stack, the
/// queue of pending input characters, and the program counter.
pub struct Vm {
    pub memory: Memory<32768>,
    pub registers: Memory<8>,
    pub stack: Stack,
    pub input: Vec<u16>,
    pub pc: u16,
}

impl View for Vm {
    type V = State;

    open spec fn view(&self) -> State {
        State {
            mem: self.memory@,
            regs: self.registers@,
            stack: self.stack@,
            input: self.input@,
            pc: self.pc,
        }
    }
}

impl Vm {
    /// Memory and registers have their fixed capacities.
    pub open spec fn wf(&self) -> bool {
        state_wf(self@)
    }

    /// A machine ready for a program load: memory and registers all zero,
    /// the stack and the input queue empty, the program counter at 0.
    pub fn new() -> (r: Vm)
        ensures
            r.wf(),
            r@.pc == 0,
            r@.stack == Seq::<u16>::empty(),
            r@.input == Seq::<u16>::empty(),
            forall|i: int| 0 <= i < 32768 ==> r@.mem[i] == 0,
            forall|i: int| 0 <= i < 8 ==> r@.regs[i] == 0,
    {
        Vm {
            memory: Memory::new(),
            registers: Memory::new(),
            stack: Stack::new(),
            input: Vec::new(),
            pc: 0,
        }
    }

    /// Append character codes to the queue of pending input. The console
    /// adapter calls this with one full line (trailing newline included)
    /// whenever a step reports `NeedInput`.
    pub fn feed_input(&mut self, codes: &Vec<u16>)
        ensures
            final(self)@ == (State { input: old(self)@.input + codes@, ..old(self)@ }),
    {
        let mut i: usize = 0;
        while i < codes.len()
            invariant
                i <= codes@.len(),
                self.input@ == old(self).input@ + codes@.subrange(0, i as int),
                self.memory == old(self).memory,
                self.registers == old(self).registers,
                self.stack == old(self).stack,
                self.pc == old(self).pc,
            decreases codes@.len() - i,
        {
            let c = codes[i];
            self.input.push(c);
            proof {
                assert(self.input@ == old(self).input@ + codes@.subrange(0, i + 1));
            }
            i = i + 1;
        }
        proof {
            assert(codes@.subrange(0, codes@.len() as int) == codes@);
        }
    }
}

/// Store `value` at a resolved write target: in a register or in a main
/// memory cell according to the address's region.
pub open spec fn spec_write_address(s: State, a: Address, value: u16) -> State {
    match a {
        Address::Reg { address } => State { regs: s.regs.update(address as int, value), ..s },
        Address::Mem { address } => State { mem: s.mem.update(address as int, value), ..s },
    }
}

} // verus!
