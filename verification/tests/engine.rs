use synacore_vm::environment::load_into_memory;
use synacore_vm::machine::StepOutcome;
use synacore_vm::machine::Vm;
use synacore_vm::operations::OpCode;

fn boot(program: Vec<u16>) -> Vm {
    let mut vm = Vm::new();
    load_into_memory(&mut vm.memory, &program);
    vm
}

#[test]
fn decode_names_every_operation() {
    assert_eq!(OpCode::decode(0), OpCode::Halt);
    assert_eq!(OpCode::decode(1), OpCode::SetRegister);
    assert_eq!(OpCode::decode(9), OpCode::Add);
    assert_eq!(OpCode::decode(21), OpCode::Noop);
    assert_eq!(OpCode::decode(22), OpCode::Unknown);
    assert_eq!(OpCode::decode(65535), OpCode::Unknown);
}

#[test]
fn out_out_halt_prints_hi() {
    // out 'H'; out 'i'; halt
    let mut vm = boot(vec![19, 72, 19, 105, 0]);
    assert_eq!(vm.step(), StepOutcome::Output { ch: 72 });
    assert_eq!(vm.step(), StepOutcome::Output { ch: 105 });
    assert_eq!(vm.step(), StepOutcome::Halt);
}

#[test]
fn jt_skips_the_intervening_noop() {
    // set register0 := 5; jt register0, 7; noop (skipped); halt at 7
    let mut vm = boot(vec![1, 32768, 5, 7, 32768, 7, 21, 0]);
    assert_eq!(vm.step(), StepOutcome::Continue);
    assert_eq!(vm.registers.read(0), 5);
    assert_eq!(vm.step(), StepOutcome::Continue);
    assert_eq!(vm.pc, 7);
    assert_eq!(vm.step(), StepOutcome::Halt);
}

#[test]
fn jt_falls_through_on_zero() {
    // jt register0 (still 0), 5; noop; halt
    let mut vm = boot(vec![7, 32768, 5, 21, 0]);
    assert_eq!(vm.step(), StepOutcome::Continue);
    assert_eq!(vm.pc, 3);
}

#[test]
fn jf_jumps_on_zero() {
    // jf register0 (still 0), 4; noop; halt at 4
    let mut vm = boot(vec![8, 32768, 4, 21, 0]);
    assert_eq!(vm.step(), StepOutcome::Continue);
    assert_eq!(vm.pc, 4);
    assert_eq!(vm.step(), StepOutcome::Halt);
}

#[test]
fn jmp_transfers_control_directly() {
    // jmp 3; noop; halt at 3
    let mut vm = boot(vec![6, 3, 21, 0]);
    assert_eq!(vm.step(), StepOutcome::Continue);
    assert_eq!(vm.pc, 3);
}

#[test]
fn call_then_ret_restores_the_position_after_the_call() {
    // call 3; halt; ret at 3
    let mut vm = boot(vec![17, 3, 0, 18]);
    assert_eq!(vm.step(), StepOutcome::Continue);
    assert_eq!(vm.pc, 3);
    assert_eq!(vm.stack.len(), 1);
    assert_eq!(vm.step(), StepOutcome::Continue);
    assert_eq!(vm.pc, 2);
    assert_eq!(vm.stack.len(), 0);
    assert_eq!(vm.step(), StepOutcome::Halt);
}

#[test]
fn ret_on_an_empty_stack_halts() {
    let mut vm = boot(vec![18]);
    assert_eq!(vm.step(), StepOutcome::Halt);
    assert_eq!(vm.pc, 0);
}

#[test]
fn push_then_pop_returns_the_pushed_value() {
    // push 123; pop into register1; halt
    let mut vm = boot(vec![2, 123, 3, 32769, 0]);
    assert_eq!(vm.step(), StepOutcome::Continue);
    assert_eq!(vm.stack.len(), 1);
    assert_eq!(vm.step(), StepOutcome::Continue);
    assert_eq!(vm.registers.read(1), 123);
    assert_eq!(vm.stack.len(), 0);
}

#[test]
fn pop_on_a_fresh_machine_is_fatal() {
    // pop into memory cell 0, with nothing ever pushed
    let mut vm = boot(vec![3, 0]);
    assert_eq!(vm.step(), StepOutcome::StackUnderflow);
    // Fatal: the state is unchanged.
    assert_eq!(vm.pc, 0);
}

#[test]
fn arithmetic_opcodes_store_wrapped_results() {
    // add register0 := 32758 + 15; mult register1 := 200 * 300;
    // mod register2 := 17 mod 5; halt
    let mut vm = boot(vec![
        9, 32768, 32758, 15, 10, 32769, 200, 300, 11, 32770, 17, 5, 0,
    ]);
    assert_eq!(vm.step(), StepOutcome::Continue);
    assert_eq!(vm.registers.read(0), 5);
    assert_eq!(vm.step(), StepOutcome::Continue);
    assert_eq!(vm.registers.read(1), 27232);  // (200 * 300) mod 32768
    assert_eq!(vm.step(), StepOutcome::Continue);
    assert_eq!(vm.registers.read(2), 2);
    assert_eq!(vm.step(), StepOutcome::Halt);
}

#[test]
fn comparison_opcodes_store_exactly_zero_or_one() {
    // eq register0 := (4 == 4); eq register1 := (4 == 5);
    // gt register2 := (7 > 3); gt register3 := (3 > 7); halt
    let mut vm = boot(vec![
        4, 32768, 4, 4, 4, 32769, 4, 5, 5, 32770, 7, 3, 5, 32771, 3, 7, 0,
    ]);
    assert_eq!(vm.step(), StepOutcome::Continue);
    assert_eq!(vm.registers.read(0), 1);
    assert_eq!(vm.step(), StepOutcome::Continue);
    assert_eq!(vm.registers.read(1), 0);
    assert_eq!(vm.step(), StepOutcome::Continue);
    assert_eq!(vm.registers.read(2), 1);
    assert_eq!(vm.step(), StepOutcome::Continue);
    assert_eq!(vm.registers.read(3), 0);
}

#[test]
fn bitwise_opcodes_store_their_results() {
    // and register0 := 12 & 10; or register1 := 12 | 10;
    // not register2 := not 0; halt
    let mut vm = boot(vec![12, 32768, 12, 10, 13, 32769, 12, 10, 14, 32770, 0, 0]);
    assert_eq!(vm.step(), StepOutcome::Continue);
    assert_eq!(vm.registers.read(0), 8);
    assert_eq!(vm.step(), StepOutcome::Continue);
    assert_eq!(vm.registers.read(1), 14);
    assert_eq!(vm.step(), StepOutcome::Continue);
    assert_eq!(vm.registers.read(2), 32767);
}

#[test]
fn modulo_by_zero_is_fatal() {
    // mod register0 := 5 mod 0
    let mut vm = boot(vec![11, 32768, 5, 0]);
    assert_eq!(vm.step(), StepOutcome::DivisionByZero);
    assert_eq!(vm.pc, 0);
}

#[test]
fn wmem_and_rmem_move_words_through_memory() {
    // wmem memory[100] := 777; rmem register0 := memory[100]; halt
    let mut vm = boot(vec![16, 100, 777, 15, 32768, 100, 0]);
    assert_eq!(vm.step(), StepOutcome::Continue);
    assert_eq!(vm.memory.read(100), 777);
    assert_eq!(vm.step(), StepOutcome::Continue);
    assert_eq!(vm.registers.read(0), 777);
}

#[test]
fn set_writes_the_selected_register() {
    // set register3 := 999; halt
    let mut vm = boot(vec![1, 32771, 999, 0]);
    assert_eq!(vm.step(), StepOutcome::Continue);
    assert_eq!(vm.registers.read(3), 999);
    assert_eq!(vm.pc, 3);
}

#[test]
fn out_emits_the_low_eight_bits() {
    // out 321 ('A' plus 256); halt
    let mut vm = boot(vec![19, 321, 0]);
    assert_eq!(vm.step(), StepOutcome::Output { ch: 65 });
    assert_eq!(vm.pc, 2);
}

#[test]
fn input_is_consumed_one_character_per_in_opcode() {
    // in register0; in register1; halt
    let mut vm = boot(vec![20, 32768, 20, 32769, 0]);
    assert_eq!(vm.step(), StepOutcome::NeedInput);
    assert_eq!(vm.pc, 0);
    vm.feed_input(&vec![104, 10]);
    assert_eq!(vm.step(), StepOutcome::Continue);
    assert_eq!(vm.registers.read(0), 104);
    assert_eq!(vm.step(), StepOutcome::Continue);
    assert_eq!(vm.registers.read(1), 10);
    assert_eq!(vm.step(), StepOutcome::Halt);
}

#[test]
fn unknown_opcodes_skip_exactly_one_word() {
    // 99 is no opcode; then halt
    let mut vm = boot(vec![99, 0]);
    assert_eq!(vm.step(), StepOutcome::UnknownOpcode { code: 99 });
    assert_eq!(vm.pc, 1);
    assert_eq!(vm.step(), StepOutcome::Halt);
}

#[test]
fn a_program_counter_outside_memory_is_fatal() {
    let mut vm = boot(vec![0]);
    vm.pc = 32768;
    assert_eq!(vm.step(), StepOutcome::OutOfBounds);
    assert_eq!(vm.pc, 32768);
}

#[test]
fn operands_past_the_end_of_memory_are_fatal() {
    let mut vm = Vm::new();
    // An add opcode in the last memory cell has no room for its operands.
    vm.memory.write(32767, 9);
    vm.pc = 32767;
    assert_eq!(vm.step(), StepOutcome::OutOfBounds);
    assert_eq!(vm.pc, 32767);
}

#[test]
fn a_memory_access_through_a_polluted_register_is_fatal() {
    // rmem register0 := memory[register1] where register1 holds a value
    // outside the 32768 cells.
    let mut vm = boot(vec![15, 32768, 32769, 0]);
    vm.registers.write(1, 40000);
    assert_eq!(vm.step(), StepOutcome::OutOfBounds);
    assert_eq!(vm.pc, 0);
}
