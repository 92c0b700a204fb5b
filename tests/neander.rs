use niahu::codec::LoadError;
use niahu::neander::{InstrInfo, Machine, ADD, HLT, JMP, JN, JZ, LDA, NOT, STA};

#[test]
fn sub_algo() {
    let mut vm = Machine::new();
    vm.mem[0x0] = LDA;
    vm.mem[0x1] = 0x81;
    vm.mem[0x2] = NOT;
    vm.mem[0x3] = ADD;
    vm.mem[0x4] = 0x83;
    vm.mem[0x5] = ADD;
    vm.mem[0x6] = 0x80;
    vm.mem[0x7] = STA;
    vm.mem[0x8] = 0x82;
    vm.mem[0x9] = HLT;

    vm.mem[0x80] = 150;
    vm.mem[0x81] = 3;
    vm.mem[0x83] = 1;

    vm.execute();

    assert_eq!(vm.mem[0x82], 147);
    assert_eq!(vm.cycles, 6);
    assert_eq!(vm.accesses, 14);
}

#[test]
fn mul_algo() {
    let mut vm = Machine::new();
    vm.mem[0x0] = LDA;
    vm.mem[0x1] = 0x85;
    vm.mem[0x2] = STA;
    vm.mem[0x3] = 0x82;
    vm.mem[0x4] = LDA;
    vm.mem[0x5] = 0x81;
    vm.mem[0x6] = STA;
    vm.mem[0x7] = 0x83;
    vm.mem[0x8] = JZ;
    vm.mem[0x9] = 0x18;
    vm.mem[0xA] = ADD;
    vm.mem[0xB] = 0x84;
    vm.mem[0xC] = STA;
    vm.mem[0xD] = 0x83;
    vm.mem[0xE] = LDA;
    vm.mem[0xF] = 0x80;
    vm.mem[0x10] = ADD;
    vm.mem[0x11] = 0x82;
    vm.mem[0x12] = STA;
    vm.mem[0x13] = 0x82;
    vm.mem[0x14] = LDA;
    vm.mem[0x15] = 0x83;
    vm.mem[0x16] = JMP;
    vm.mem[0x17] = 0x8;
    vm.mem[0x18] = HLT;

    vm.mem[0x80] = 5;
    vm.mem[0x81] = 11;
    vm.mem[0x84] = 255;
    vm.mem[0x85] = 0;

    vm.execute();

    assert_eq!(vm.mem[0x82], 55);
    assert_eq!(vm.cycles, 94);
    assert_eq!(vm.accesses, 257);
}

#[test]
fn is_pos() {
    let mut vm = Machine::new();
    vm.mem[0x0] = LDA;
    vm.mem[0x1] = 0x80;
    vm.mem[0x2] = NOT;
    vm.mem[0x3] = JN;
    vm.mem[0x4] = 0xA;
    vm.mem[0x5] = LDA;
    vm.mem[0x6] = 0x83;
    vm.mem[0x7] = STA;
    vm.mem[0x8] = 0x81;
    vm.mem[0x9] = HLT;
    vm.mem[0xA] = LDA;
    vm.mem[0xB] = 0x82;
    vm.mem[0xC] = STA;
    vm.mem[0xD] = 0x81;
    vm.mem[0xE] = HLT;

    vm.mem[0x80] = 128;
    vm.mem[0x82] = 1;
    vm.mem[0x83] = 0;

    vm.execute();

    assert_eq!(vm.mem[0x81], 0);
}

#[test]
fn encode_decode() {
    let mut vm = Machine::new();
    vm.mem[0x0] = 42;
    vm.mem[0xB5] = 220;
    let buf = vm.save_mem();
    let mut vm2 = Machine::new();
    vm2.load_mem(&buf[..]).unwrap();
    assert_eq!(&vm.mem as &[_], &vm2.mem as &[_]);
}

#[test]
fn neander_state_round_trip() {
    let mut vm = Machine::new();
    vm.mem[0x0] = 42;
    vm.mem[0xB5] = 220;
    vm.pc = 0x5;
    vm.ac = 203;
    vm.ri = 0x12;
    vm.cycling = true;
    vm.cycles = 0x0102_0304_0506_0708;
    vm.accesses = 6;
    let buf = vm.save_state();
    assert_eq!(buf.len(), 536);
    assert_eq!(&buf[..8], &[0x04, 0x4E, 0x44, 0x52, 0x12, 0x05, 203, 1]);
    assert_eq!(&buf[8..16], &[8, 7, 6, 5, 4, 3, 2, 1]);
    let mut vm2 = Machine::new();
    vm2.load_state(&buf[..]).unwrap();
    assert_eq!(vm, vm2);
}

#[test]
fn neander_mem_image_layout() {
    let mut vm = Machine::new();
    vm.write_raw(0x0, 0xAB);
    vm.write_raw(0xFF, 0x01);
    let buf = vm.save_mem();
    assert_eq!(buf.len(), 516);
    assert_eq!(&buf[..6], &[0x03, 0x4E, 0x44, 0x52, 0xAB, 0x00]);
    assert_eq!(&buf[514..], &[0x01, 0x00]);
}

#[test]
fn neander_foreign_header_leaves_machine_unchanged() {
    let mut vm = Machine::new();
    vm.write_raw(0x10, 7);
    let mut other = niahu::ahmes::Machine::new();
    other.write_raw(0x10, 99);
    let buf = other.save_mem();
    assert_eq!(vm.load_mem(&buf[..]), Err(LoadError::InvalidFile));
    assert_eq!(vm.mem[0x10], 7);
    let state = vm.save_state();
    assert_eq!(vm.load_mem(&state[..]), Err(LoadError::InvalidFile));
    assert_eq!(vm.mem[0x10], 7);
}

#[test]
fn neander_short_stream_is_eof() {
    let mut vm = Machine::new();
    let buf = vm.save_mem();
    assert_eq!(vm.load_mem(&buf[..3]), Err(LoadError::UnexpectedEof));
    assert_eq!(vm.load_mem(&buf[..515]), Err(LoadError::UnexpectedEof));
    assert_eq!(vm.load_state(&buf[..]), Err(LoadError::InvalidFile));
}

#[test]
fn neander_write_then_read_counts_two() {
    let mut vm = Machine::new();
    vm.write(0x42, 9);
    assert_eq!(vm.read(0x42), 9);
    assert_eq!(vm.accesses, 2);
    vm.write_raw(0x43, 1);
    assert_eq!(vm.accesses, 2);
    vm.cycles = 5;
    vm.set_pc(0x20);
    assert_eq!((vm.pc, vm.cycles, vm.accesses), (0x20, 0, 0));
}

#[test]
fn neander_add_wraps() {
    let mut vm = Machine::new();
    vm.mem[0x0] = LDA;
    vm.mem[0x1] = 0x80;
    vm.mem[0x2] = ADD;
    vm.mem[0x3] = 0x81;
    vm.mem[0x4] = HLT;
    vm.mem[0x80] = 200;
    vm.mem[0x81] = 100;
    vm.execute();
    assert_eq!(vm.ac, 44);
    assert!(!vm.cycling);
}

#[test]
fn neander_unknown_opcode_is_nop() {
    let mut vm = Machine::new();
    vm.mem[0x0] = 0x70;
    vm.mem[0x1] = HLT;
    vm.execute();
    assert_eq!(vm.cycles, 2);
    assert_eq!(vm.accesses, 2);
    assert_eq!(vm.pc, 2);
}

#[test]
fn neander_instr_table() {
    let lda = InstrInfo::new(0x2F).unwrap();
    assert_eq!((lda.mnemonic, lda.operand), ("LDA", true));
    let hlt = InstrInfo::new(0xF3).unwrap();
    assert_eq!((hlt.mnemonic, hlt.operand), ("HLT", false));
    assert!(InstrInfo::new(0x70).is_none());
    assert!(InstrInfo::new(0xB0).is_none());
}

#[test]
fn neander_listing_skips_operand() {
    let mut vm = Machine::new();
    vm.mem[0x0] = LDA;
    vm.mem[0x1] = NOT;
    vm.mem[0x2] = NOT;
    let text = vm.display_mem_opcodes(&[0, 1, 2], true);
    assert_eq!(
        String::from_utf8(text).unwrap(),
        "00 = 20  LDA\n01 = 60\n02 = 60  NOT\n"
    );
    let text = vm.display_mem_opcodes(&[1, 2], false);
    assert_eq!(
        String::from_utf8(text).unwrap(),
        "001 = 096  NOT\n002 = 096  NOT\n"
    );
}

#[test]
fn neander_data_and_registers() {
    let mut vm = Machine::new();
    vm.mem[0x80] = 0xFE;
    vm.ac = 0x80;
    vm.pc = 7;
    let text = vm.display_mem_data(&[0x80, 0x81], true);
    assert_eq!(String::from_utf8(text).unwrap(), "80 = FE\n81 = 00\n");
    let text = vm.display_mem_data(&[0x80], false);
    assert_eq!(String::from_utf8(text).unwrap(), "128 = 254\n");
    let text = vm.display_registers(true);
    assert_eq!(
        String::from_utf8(text).unwrap(),
        "ac = 80\npc = 07\nn  = 01\nz  = 00\n"
    );
    vm.cycles = 94;
    vm.accesses = 257;
    let text = vm.display_stats();
    assert_eq!(String::from_utf8(text).unwrap(), "cycles = 94\naccesses = 257\n");
    assert_eq!(vm.accesses, 257);
}
