use niahu::codec::LoadError;
use niahu::novir::{Machine, ADD, HLT, JMP, JN, JZ, LDA, NOT, STA};

#[test]
fn lib_sub_algo() {
    let mut vm = Machine::new();
    vm.mem[0x0] = LDA;
    vm.mem[0x1] = 0x81;
    vm.mem[0x2] = NOT;
    vm.mem[0x3] = ADD;
    vm.mem[0x4] = 0x83;
    vm.mem[0x5] = ADD;
    vm.mem[0x6] = 0x80;
    vm.mem[0x7] = STA;
    vm.mem[0x8] = 0x82;
    vm.mem[0x9] = HLT;

    vm.mem[0x80] = 150;
    vm.mem[0x81] = 3;
    vm.mem[0x83] = 1;

    vm.execute_sync();

    assert_eq!(vm.mem[0x82], 147);
    assert_eq!(vm.cycles(), 6);
    assert_eq!(vm.accesses(), 14);
}

#[test]
fn lib_mul_algo() {
    let mut vm = Machine::new();
    vm.mem[0x0] = LDA;
    vm.mem[0x1] = 0x85;
    vm.mem[0x2] = STA;
    vm.mem[0x3] = 0x82;
    vm.mem[0x4] = LDA;
    vm.mem[0x5] = 0x81;
    vm.mem[0x6] = STA;
    vm.mem[0x7] = 0x83;
    vm.mem[0x8] = JZ;
    vm.mem[0x9] = 0x18;
    vm.mem[0xA] = ADD;
    vm.mem[0xB] = 0x84;
    vm.mem[0xC] = STA;
    vm.mem[0xD] = 0x83;
    vm.mem[0xE] = LDA;
    vm.mem[0xF] = 0x80;
    vm.mem[0x10] = ADD;
    vm.mem[0x11] = 0x82;
    vm.mem[0x12] = STA;
    vm.mem[0x13] = 0x82;
    vm.mem[0x14] = LDA;
    vm.mem[0x15] = 0x83;
    vm.mem[0x16] = JMP;
    vm.mem[0x17] = 0x8;
    vm.mem[0x18] = HLT;

    vm.mem[0x80] = 5;
    vm.mem[0x81] = 11;
    vm.mem[0x84] = 255;
    vm.mem[0x85] = 0;

    vm.execute_sync();

    assert_eq!(vm.mem[0x82], 55);
    assert_eq!(vm.cycles(), 94);
    assert_eq!(vm.accesses(), 257);
}

#[test]
fn lib_is_pos() {
    let mut vm = Machine::new();
    vm.mem[0x0] = LDA;
    vm.mem[0x1] = 0x80;
    vm.mem[0x2] = NOT;
    vm.mem[0x3] = JN;
    vm.mem[0x4] = 0xA;
    vm.mem[0x5] = LDA;
    vm.mem[0x6] = 0x83;
    vm.mem[0x7] = STA;
    vm.mem[0x8] = 0x81;
    vm.mem[0x9] = HLT;
    vm.mem[0xA] = LDA;
    vm.mem[0xB] = 0x82;
    vm.mem[0xC] = STA;
    vm.mem[0xD] = 0x81;
    vm.mem[0xE] = HLT;

    vm.mem[0x80] = 128;
    vm.mem[0x82] = 1;
    vm.mem[0x83] = 0;

    vm.execute_sync();

    assert_eq!(vm.mem[0x81], 0);
}

#[test]
fn novir_encode_decode() {
    let mut vm = Machine::new();
    vm.mem[0x0] = 42;
    vm.mem[0xB5] = 220;
    let buf = vm.encode();
    assert_eq!(buf.len(), 516);
    assert_eq!(&buf[..4], &[0x03, 0x4E, 0x44, 0x52]);
    let mut vm2 = Machine::new();
    vm2.decode(&buf[..]).unwrap();
    assert_eq!(&vm.mem as &[_], &vm2.mem as &[_]);
}

#[test]
fn novir_decode_errors_leave_memory() {
    let mut vm = Machine::new();
    vm.mem[0x3] = 3;
    let mut bad = Machine::new().encode();
    bad[1] = b'X';
    assert_eq!(vm.decode(&bad[..]), Err(LoadError::InvalidFile));
    assert_eq!(vm.decode(&bad[..2]), Err(LoadError::UnexpectedEof));
    let good = Machine::new().encode();
    assert_eq!(vm.decode(&good[..100]), Err(LoadError::UnexpectedEof));
    assert_eq!(vm.mem[0x3], 3);
}

#[test]
fn novir_async_rounds() {
    let mut vm = Machine::new();
    vm.mem[0x0] = JMP;
    vm.mem[0x1] = 0x0;
    assert!(!vm.execute_async_round());
    assert_eq!(vm.cycles(), 100);
    assert_eq!(vm.accesses(), 200);
    vm.mem[0x0] = HLT;
    assert!(vm.execute_async_round());
    assert_eq!(vm.cycles(), 101);
}

#[test]
fn novir_counters_and_pc() {
    let mut vm = Machine::new();
    vm.write(0x10, 4);
    assert_eq!(vm.read(0x10), 4);
    assert_eq!(vm.accesses(), 2);
    vm.mem[0x0] = NOT;
    vm.cycle();
    assert_eq!((vm.ac, vm.pc(), vm.cycles(), vm.accesses()), (0xFF, 1, 1, 3));
    vm.reset_with_pc(0x40);
    assert_eq!((vm.pc(), vm.cycles(), vm.accesses()), (0x40, 0, 0));
    assert_eq!(vm.read_code(), 0);
    assert_eq!(vm.pc(), 0x41);
    vm.reset_stats();
    assert_eq!((vm.pc(), vm.accesses()), (0x41, 0));
}

#[test]
fn novir_raw_access_is_not_counted() {
    let mut vm = Machine::new();
    vm.write_raw(0x0, NOT);
    vm.write_raw(0x1, HLT);
    assert_eq!((vm.peek(0x0), vm.peek(0x1), vm.accesses()), (NOT, HLT, 0));
    assert!(vm.execute_async_round());
    assert_eq!((vm.ac(), vm.cycles(), vm.accesses()), (0xFF, 2, 2));
}

#[test]
fn novir_async_round_runs_at_least_one_cycle() {
    let mut vm = Machine::new();
    vm.write_raw(0x0, HLT);
    assert!(vm.execute_async_round());
    assert_eq!(vm.cycles(), 1);
    vm.reset_with_pc(0);
    assert!(vm.execute_async_round());
    assert_eq!((vm.cycles(), vm.pc()), (1, 1));
}
