use niahu::codec::LoadError;
use niahu::ramses::{
    InstrInfo, Machine, Mode, ADD, HLT, JC, JMP, JN, JSR, JZ, LDR, MODE_DIRECT, MODE_IMMEDIATE,
    MODE_INDEXED, MODE_INDIRECT, NEG, NOT, REG_A, REG_B, REG_X, SHR, STR, SUB,
};

#[test]
fn string_size() {
    let mut vm = Machine::new();
    vm.mem[0x1] = LDR | REG_A << 2 | MODE_IMMEDIATE;
    vm.mem[0x2] = 0;
    vm.mem[0x3] = LDR | REG_X << 2;
    vm.mem[0x4] = 0x80;
    vm.mem[0x5] = LDR | REG_B << 2 | MODE_INDEXED;
    vm.mem[0x6] = 0;
    vm.mem[0x7] = JZ;
    vm.mem[0x8] = 0xF;
    vm.mem[0x9] = ADD | REG_X << 2 | MODE_IMMEDIATE;
    vm.mem[0xA] = 1;
    vm.mem[0xB] = ADD | REG_A << 2 | MODE_IMMEDIATE;
    vm.mem[0xC] = 1;
    vm.mem[0xD] = JMP;
    vm.mem[0xE] = 0x5;
    vm.mem[0xF] = STR | REG_A << 2;
    vm.mem[0x10] = 0x81;
    vm.mem[0x11] = HLT;

    vm.mem[0x80] = 0xA0;

    vm.mem[0xA0] = 100;
    vm.mem[0xA1] = 99;
    vm.mem[0xA2] = 98;
    vm.mem[0xA3] = 97;
    vm.mem[0xA4] = 0;

    vm.execute();

    assert_eq!(vm.mem[0x81], 4);
}

#[test]
fn ramses_mul_algo() {
    let mut vm = Machine::new();
    vm.mem[0x0] = LDR;
    vm.mem[0x1] = 0x85;
    vm.mem[0x2] = STR;
    vm.mem[0x3] = 0x82;
    vm.mem[0x4] = LDR;
    vm.mem[0x5] = 0x81;
    vm.mem[0x6] = STR;
    vm.mem[0x7] = 0x83;
    vm.mem[0x8] = JZ;
    vm.mem[0x9] = 0x18;
    vm.mem[0xA] = ADD;
    vm.mem[0xB] = 0x84;
    vm.mem[0xC] = STR;
    vm.mem[0xD] = 0x83;
    vm.mem[0xE] = LDR;
    vm.mem[0xF] = 0x80;
    vm.mem[0x10] = ADD;
    vm.mem[0x11] = 0x82;
    vm.mem[0x12] = STR;
    vm.mem[0x13] = 0x82;
    vm.mem[0x14] = LDR;
    vm.mem[0x15] = 0x83;
    vm.mem[0x16] = JMP;
    vm.mem[0x17] = 0x8;
    vm.mem[0x18] = HLT;

    vm.mem[0x80] = 5;
    vm.mem[0x81] = 11;
    vm.mem[0x84] = 255;
    vm.mem[0x85] = 0;

    vm.execute();

    assert_eq!(vm.mem[0x82], 55);
    assert_eq!(vm.cycles, 94);
    assert_eq!(vm.accesses, 257);
}

#[test]
fn ramses_is_pos() {
    let mut vm = Machine::new();
    vm.mem[0x0] = LDR;
    vm.mem[0x1] = 0x80;
    vm.mem[0x2] = NOT;
    vm.mem[0x3] = JN;
    vm.mem[0x4] = 0xA;
    vm.mem[0x5] = LDR;
    vm.mem[0x6] = 0x83;
    vm.mem[0x7] = STR;
    vm.mem[0x8] = 0x81;
    vm.mem[0x9] = HLT;
    vm.mem[0xA] = LDR;
    vm.mem[0xB] = 0x82;
    vm.mem[0xC] = STR;
    vm.mem[0xD] = 0x81;
    vm.mem[0xE] = HLT;

    vm.mem[0x80] = 128;
    vm.mem[0x82] = 1;
    vm.mem[0x83] = 0;

    vm.execute();

    assert_eq!(vm.mem[0x81], 0);
}

#[test]
fn save_load_mem() {
    let mut vm = Machine::new();
    vm.mem[0x0] = 42;
    vm.mem[0xB5] = 220;
    let buf = vm.save_mem();
    let mut vm2 = Machine::new();
    vm2.load_mem(&buf[..]).unwrap();
    assert_eq!(&vm.mem as &[_], &vm2.mem as &[_]);
}

#[test]
fn save_load_state() {
    let mut vm = Machine::new();
    vm.mem[0x0] = 42;
    vm.mem[0xB5] = 220;
    vm.pc = 0x5;
    vm.ra = 203;
    vm.ri = 0x12;
    vm.cycles = 2;
    vm.accesses = 6;
    let buf = vm.save_state();
    let mut vm2 = Machine::new();
    vm2.load_state(&buf[..]).unwrap();
    assert_eq!(vm, vm2);
}

#[test]
fn ramses_state_layout_and_untouched_registers() {
    let mut vm = Machine::new();
    vm.negative = true;
    vm.carry = true;
    vm.rb = 9;
    let buf = vm.save_state();
    assert_eq!(buf.len(), 539);
    assert_eq!(&buf[..11], &[0x04, 0x52, 0x4D, 0x53, 0, 0, 0, 1, 0, 1, 0]);
    let mut vm2 = Machine::new();
    vm2.rx = 3;
    vm2.load_state(&buf[..]).unwrap();
    assert_eq!(vm, vm2);
    assert!(vm2.negative && !vm2.zero && vm2.carry);
    assert_eq!((vm2.rb, vm2.rx), (0, 3));
}

#[test]
fn ramses_foreign_header() {
    let mut vm = Machine::new();
    vm.write_raw(0x7, 7);
    let buf = niahu::neander::Machine::new().save_mem();
    assert_eq!(vm.load_mem(&buf[..]), Err(LoadError::InvalidFile));
    assert_eq!(vm.mem[0x7], 7);
}

#[test]
fn ramses_addressing_modes() {
    let mut vm = Machine::new();
    vm.mem[0x40] = 0x50;
    vm.mem[0x50] = 0x77;
    vm.mem[0x45] = 0x33;
    vm.rx = 5;
    vm.mem[0x0] = LDR | REG_A << 2 | MODE_DIRECT;
    vm.mem[0x1] = 0x40;
    vm.mem[0x2] = LDR | REG_B << 2 | MODE_INDIRECT;
    vm.mem[0x3] = 0x40;
    vm.mem[0x4] = LDR | REG_X << 2 | MODE_INDEXED;
    vm.mem[0x5] = 0x40;
    vm.mem[0x6] = LDR | REG_A << 2 | MODE_IMMEDIATE;
    vm.mem[0x7] = 0x40;
    vm.cycle();
    assert_eq!((vm.ra, vm.accesses), (0x50, 3));
    vm.cycle();
    assert_eq!((vm.rb, vm.accesses), (0x77, 7));
    vm.cycle();
    assert_eq!((vm.rx, vm.accesses), (0x33, 10));
    vm.cycle();
    assert_eq!((vm.ra, vm.accesses), (0x40, 12));
    assert_eq!(vm.rm, Mode::Immediate);
}

#[test]
fn ramses_sub_carry_is_no_borrow() {
    let mut vm = Machine::new();
    vm.ra = 3;
    vm.mem[0x0] = SUB | REG_A << 2 | MODE_IMMEDIATE;
    vm.mem[0x1] = 5;
    vm.cycle();
    assert_eq!((vm.ra, vm.carry, vm.negative, vm.zero), (254, false, true, false));
    vm.mem[0x2] = SUB | REG_A << 2 | MODE_IMMEDIATE;
    vm.mem[0x3] = 254;
    vm.cycle();
    assert_eq!((vm.ra, vm.carry, vm.zero), (0, true, true));
}

#[test]
fn ramses_neg_and_shr() {
    let mut vm = Machine::new();
    vm.rb = 1;
    vm.mem[0x0] = NEG | REG_B << 2;
    vm.mem[0x1] = SHR | REG_B << 2;
    vm.mem[0x2] = HLT;
    vm.cycle();
    assert_eq!((vm.rb, vm.carry, vm.negative), (0xFF, false, true));
    vm.cycle();
    assert_eq!((vm.rb, vm.carry, vm.negative, vm.pc), (0x7F, true, false, 2));
    assert_eq!(vm.accesses, 2);
    let mut vm = Machine::new();
    vm.mem[0x0] = NEG | REG_X << 2;
    vm.cycle();
    assert_eq!((vm.rx, vm.carry, vm.zero), (0, true, true));
}

#[test]
fn ramses_flags_follow_register_reads() {
    let mut vm = Machine::new();
    vm.rb = 0x90;
    vm.mem[0x0] = STR | REG_B << 2;
    vm.mem[0x1] = 0x60;
    vm.cycle();
    assert_eq!(vm.mem[0x60], 0x90);
    assert!(vm.negative && !vm.zero);
    vm.mem[0x2] = JN;
    vm.mem[0x3] = 0x30;
    vm.cycle();
    assert_eq!(vm.pc, 0x30);
}

#[test]
fn ramses_jsr_stores_return_address() {
    let mut vm = Machine::new();
    vm.mem[0x0] = JSR;
    vm.mem[0x1] = 0x40;
    vm.cycle();
    assert_eq!(vm.mem[0x40], 2);
    assert_eq!(vm.pc, 0x41);
    vm.carry = true;
    vm.mem[0x41] = JC | MODE_INDIRECT;
    vm.mem[0x42] = 0x40;
    vm.cycle();
    assert_eq!(vm.pc, 2);
}

#[test]
fn ramses_instr_table() {
    let sub = InstrInfo::new(0x7B).unwrap();
    assert_eq!((sub.mnemonic, sub.register, sub.operand), ("SUB", true, true));
    let jsr = InstrInfo::new(0xC1).unwrap();
    assert_eq!((jsr.mnemonic, jsr.register, jsr.operand), ("JSR", false, true));
    let neg = InstrInfo::new(0xD4).unwrap();
    assert_eq!((neg.mnemonic, neg.register, neg.operand), ("NEG", true, false));
}

#[test]
fn ramses_listing_and_registers() {
    let mut vm = Machine::new();
    vm.mem[0x0] = LDR | REG_A << 2 | MODE_IMMEDIATE;
    vm.mem[0x1] = HLT;
    vm.mem[0x2] = NOT;
    let text = vm.display_mem_opcodes(&[0, 1, 2], false);
    assert_eq!(
        String::from_utf8(text).unwrap(),
        "000 = 034  LDR\n001 = 240\n002 = 096  NOT\n"
    );
    vm.ra = 0xF0;
    let text = vm.display_registers(true);
    assert_eq!(
        String::from_utf8(text).unwrap(),
        "ra = F0\npc = 00\nn  = 01\nz  = 00\n"
    );
}
