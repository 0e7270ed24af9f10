use synacore_vm::address::Address;
use synacore_vm::address::Mem;
use synacore_vm::address::Reg;
use synacore_vm::address::resolve_value;
use synacore_vm::environment::Memory;
use synacore_vm::environment::Stack;
use synacore_vm::math::SynacoreValue;

#[test]
fn classification_below_32768_is_memory() {
    assert_eq!(Address::classify(0), Address::Mem { address: 0 });
    assert_eq!(Address::classify(100), Address::Mem { address: 100 });
    assert_eq!(Address::classify(32767), Address::Mem { address: 32767 });
}

#[test]
fn classification_from_32768_selects_a_register() {
    assert_eq!(Address::classify(32768), Address::Reg { address: 0 });
    assert_eq!(Address::classify(32771), Address::Reg { address: 3 });
    assert_eq!(Address::classify(32775), Address::Reg { address: 7 });
    // Values above the register-selector range classify by the same rule.
    assert_eq!(Address::classify(65535), Address::Reg { address: 7 });
}

#[test]
fn register_selection_reduces_modulo_8() {
    assert_eq!(Reg::select(32768).address, 0);
    assert_eq!(Reg::select(32775).address, 7);
}

#[test]
fn resolution_substitutes_register_contents() {
    let mut registers: Memory<8> = Memory::new();
    registers.write(2, 1234);
    assert_eq!(resolve_value(32770, &registers), 1234);
    assert_eq!(resolve_value(1234, &registers), 1234);
    assert_eq!(resolve_value(0, &registers), 0);
    assert_eq!(SynacoreValue::resolve(32770, &registers).0, 1234);
}

#[test]
fn memory_reads_back_what_was_written() {
    let mut memory: Memory<32768> = Memory::new();
    assert_eq!(memory.read(0), 0);
    assert_eq!(memory.read(32767), 0);
    memory.write(5, 999);
    assert_eq!(memory.read(5), 999);
    memory.write(32767, 1);
    assert_eq!(memory.read(32767), 1);
}

#[test]
fn mem_reference_reads_and_writes_main_memory() {
    let mut memory: Memory<32768> = Memory::new();
    let registers: Memory<8> = Memory::new();
    let cell = Mem::locate(7, &registers);
    cell.write(42, &mut memory);
    assert_eq!(cell.read(&memory), 42);
    assert_eq!(memory.read(7), 42);
}

#[test]
fn stack_pushes_and_pops_in_lifo_order() {
    let mut stack = Stack::new();
    assert_eq!(stack.len(), 0);
    stack.push(7);
    stack.push(9);
    assert_eq!(stack.pop(), Some(9));
    assert_eq!(stack.pop(), Some(7));
    assert_eq!(stack.pop(), None);
}

#[test]
fn addition_wraps_at_32768() {
    assert_eq!(SynacoreValue(32758).add(SynacoreValue(15)).0, 5);
    assert_eq!(SynacoreValue(0).add(SynacoreValue(0)).0, 0);
    assert_eq!(SynacoreValue(32767).add(SynacoreValue(1)).0, 0);
}

#[test]
fn multiplication_wraps_at_32768() {
    assert_eq!(
        SynacoreValue(1234).mul(SynacoreValue(5678)).0,
        ((1234u32 * 5678u32) % 32768) as u16
    );
    assert_eq!(SynacoreValue(32767).mul(SynacoreValue(32767)).0, 1);
    assert_eq!(SynacoreValue(2).mul(SynacoreValue(3)).0, 6);
}

#[test]
fn remainder_is_plain_remainder() {
    assert_eq!(SynacoreValue(17).rem(SynacoreValue(5)).0, 2);
    assert_eq!(SynacoreValue(4).rem(SynacoreValue(9)).0, 4);
}

#[test]
fn bitwise_operations_stay_15_bit() {
    assert_eq!(SynacoreValue(0b1100).bitand(SynacoreValue(0b1010)).0, 0b1000);
    assert_eq!(SynacoreValue(0b1100).bitor(SynacoreValue(0b1010)).0, 0b1110);
    assert_eq!(SynacoreValue(0).not().0, 32767);
    assert_eq!(SynacoreValue(32767).not().0, 0);
    assert_eq!(SynacoreValue(0b101).not().0, 0b111_1111_1111_1010);
}
