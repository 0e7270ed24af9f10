use synacore_vm::environment::load_into_memory;
use synacore_vm::machine::Vm;
use synacore_vm::loader::into_chunks;
use synacore_vm::loader::word_from_le;
use synacore_vm::loader::words_from_bytes;

#[test]
fn chunks_iterator_to_arrays() {
    let data: Vec<u8> = vec![1, 2, 3, 4, 5, 6, 7, 8, 9];
    let chunks = into_chunks(&data, 3);
    assert_eq!(chunks.len(), 3);
    assert_eq!(chunks[0], vec![1, 2, 3]);
    assert_eq!(chunks[1], vec![4, 5, 6]);
    assert_eq!(chunks[2], vec![7, 8, 9]);
}

#[test]
fn chunking_drops_an_incomplete_final_chunk() {
    let data: Vec<u8> = vec![1, 2, 3, 4, 5];
    let chunks = into_chunks(&data, 2);
    assert_eq!(chunks.len(), 2);
    assert_eq!(chunks[0], vec![1, 2]);
    assert_eq!(chunks[1], vec![3, 4]);
}

#[test]
fn words_are_little_endian() {
    assert_eq!(word_from_le(0x34, 0x12), 0x1234);
    assert_eq!(word_from_le(0, 0), 0);
    assert_eq!(word_from_le(0xff, 0xff), 0xffff);
}

#[test]
fn loader_round_trip() {
    let bytes: Vec<u8> = vec![21, 0, 21, 0, 19, 0, 87, 0, 19, 0];
    let words = words_from_bytes(&bytes);
    assert_eq!(words, vec![21, 21, 19, 87, 19]);

    let mut vm = Vm::new();
    load_into_memory(&mut vm.memory, &words);
    assert_eq!(vm.memory.read(0), 21);
    assert_eq!(vm.memory.read(1), 21);
    assert_eq!(vm.memory.read(2), 19);
    assert_eq!(vm.memory.read(3), 87);
    assert_eq!(vm.memory.read(4), 19);
    assert_eq!(vm.memory.read(5), 0);
}

#[test]
fn decoding_drops_a_trailing_unpaired_byte() {
    let bytes: Vec<u8> = vec![1, 0, 2];
    let words = words_from_bytes(&bytes);
    assert_eq!(words, vec![1]);
}
