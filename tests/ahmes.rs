use niahu::ahmes::{
    InstrInfo, Machine, Op, ADD, HLT, JB, JC, JMP, JN, JNC, JV, JZ, LDA, NOT, ROL, ROR, SHL, SHR,
    STA, SUB,
};
use niahu::codec::LoadError;

#[test]
fn test_sub_algo() {
    let mut vm = Machine::new();
    vm.mem[0x0] = LDA;
    vm.mem[0x1] = 0x81;
    vm.mem[0x2] = NOT;
    vm.mem[0x3] = ADD;
    vm.mem[0x4] = 0x83;
    vm.mem[0x5] = ADD;
    vm.mem[0x6] = 0x80;
    vm.mem[0x7] = STA;
    vm.mem[0x8] = 0x82;
    vm.mem[0x9] = HLT;

    vm.mem[0x80] = 150;
    vm.mem[0x81] = 3;
    vm.mem[0x83] = 1;

    vm.execute();

    assert_eq!(vm.mem[0x82], 147);
    assert_eq!(vm.cycles, 6);
    assert_eq!(vm.accesses, 14);
}

#[test]
fn add16_algo() {
    let mut vm = Machine::new();

    vm.mem[0x0] = LDA;
    vm.mem[0x1] = 0x81;
    vm.mem[0x2] = ADD;
    vm.mem[0x3] = 0x83;
    vm.mem[0x4] = STA;
    vm.mem[0x5] = 0x85;
    vm.mem[0x6] = LDA;
    vm.mem[0x7] = 0x80;
    vm.mem[0x8] = JNC;
    vm.mem[0x9] = 0xC;
    vm.mem[0xA] = ADD;
    vm.mem[0xB] = 0x86;
    vm.mem[0xC] = ADD;
    vm.mem[0xD] = 0x82;
    vm.mem[0xE] = STA;
    vm.mem[0xF] = 0x84;
    vm.mem[0x10] = HLT;

    vm.mem[0x80] = 3;
    vm.mem[0x81] = 255;
    vm.mem[0x82] = 10;
    vm.mem[0x83] = 2;
    vm.mem[0x86] = 1;

    vm.execute();

    assert_eq!(vm.mem[0x84], 14);
    assert_eq!(vm.mem[0x85], 1);
}

#[test]
fn test_mul_algo() {
    let mut vm = Machine::new();
    vm.mem[0x0] = LDA;
    vm.mem[0x1] = 0x85;
    vm.mem[0x2] = STA;
    vm.mem[0x3] = 0x82;
    vm.mem[0x4] = LDA;
    vm.mem[0x5] = 0x81;
    vm.mem[0x6] = STA;
    vm.mem[0x7] = 0x83;
    vm.mem[0x8] = JZ;
    vm.mem[0x9] = 0x18;
    vm.mem[0xA] = ADD;
    vm.mem[0xB] = 0x84;
    vm.mem[0xC] = STA;
    vm.mem[0xD] = 0x83;
    vm.mem[0xE] = LDA;
    vm.mem[0xF] = 0x80;
    vm.mem[0x10] = ADD;
    vm.mem[0x11] = 0x82;
    vm.mem[0x12] = STA;
    vm.mem[0x13] = 0x82;
    vm.mem[0x14] = LDA;
    vm.mem[0x15] = 0x83;
    vm.mem[0x16] = JMP;
    vm.mem[0x17] = 0x8;
    vm.mem[0x18] = HLT;

    vm.mem[0x80] = 5;
    vm.mem[0x81] = 11;
    vm.mem[0x84] = 255;
    vm.mem[0x85] = 0;

    vm.execute();

    assert_eq!(vm.mem[0x82], 55);
    assert_eq!(vm.cycles, 94);
    assert_eq!(vm.accesses, 257);
}

#[test]
fn test_is_pos() {
    let mut vm = Machine::new();
    vm.mem[0x0] = LDA;
    vm.mem[0x1] = 0x80;
    vm.mem[0x2] = NOT;
    vm.mem[0x3] = JN;
    vm.mem[0x4] = 0xA;
    vm.mem[0x5] = LDA;
    vm.mem[0x6] = 0x83;
    vm.mem[0x7] = STA;
    vm.mem[0x8] = 0x81;
    vm.mem[0x9] = HLT;
    vm.mem[0xA] = LDA;
    vm.mem[0xB] = 0x82;
    vm.mem[0xC] = STA;
    vm.mem[0xD] = 0x81;
    vm.mem[0xE] = HLT;

    vm.mem[0x80] = 128;
    vm.mem[0x82] = 1;
    vm.mem[0x83] = 0;

    vm.execute();

    assert_eq!(vm.mem[0x81], 0);
}

#[test]
fn test_save_load_mem() {
    let mut vm = Machine::new();
    vm.mem[0x0] = 42;
    vm.mem[0xB5] = 220;
    let buf = vm.save_mem();
    let mut vm2 = Machine::new();
    vm2.load_mem(&buf[..]).unwrap();
    assert_eq!(&vm.mem as &[_], &vm2.mem as &[_]);
}

#[test]
fn test_save_load_state() {
    let mut vm = Machine::new();
    vm.mem[0x0] = 42;
    vm.mem[0xB5] = 220;
    vm.pc = 0x5;
    vm.ac = 203;
    vm.ri = 0x12;
    vm.cycles = 2;
    vm.accesses = 6;
    let buf = vm.save_state();
    let mut vm2 = Machine::new();
    vm2.load_state(&buf[..]).unwrap();
    assert_eq!(vm, vm2);
}

#[test]
fn ahmes_state_keeps_every_flag() {
    let mut vm = Machine::new();
    vm.overflow = true;
    vm.borrow = true;
    vm.cycling = true;
    vm.accesses = u64::MAX;
    let buf = vm.save_state();
    assert_eq!(buf.len(), 539);
    assert_eq!(&buf[..11], &[0x04, 0x41, 0x48, 0x4D, 0, 0, 0, 1, 0, 1, 1]);
    let mut vm2 = Machine::new();
    vm2.load_state(&buf[..]).unwrap();
    assert_eq!(vm, vm2);
    assert!(vm2.overflow && !vm2.carry && vm2.borrow && vm2.cycling);
    assert_eq!(vm2.accesses, u64::MAX);
}

#[test]
fn ahmes_load_errors_leave_machine_unchanged() {
    let mut vm = Machine::new();
    vm.write_raw(0x20, 5);
    let neander = niahu::neander::Machine::new().save_state();
    assert_eq!(vm.load_state(&neander[..]), Err(LoadError::InvalidFile));
    let own = vm.save_state();
    let mut other = Machine::new();
    assert_eq!(other.load_state(&own[..538]), Err(LoadError::UnexpectedEof));
    assert_eq!(other, Machine::new());
    assert_eq!(vm.mem[0x20], 5);
}

fn run_op(ac: u8, operand: u8, op: u8) -> Machine {
    let mut vm = Machine::new();
    vm.mem[0x0] = LDA;
    vm.mem[0x1] = 0x80;
    vm.mem[0x2] = op;
    vm.mem[0x3] = 0x81;
    vm.mem[0x4] = HLT;
    vm.mem[0x80] = ac;
    vm.mem[0x81] = operand;
    vm.execute();
    vm
}

#[test]
fn ahmes_add_flags() {
    let vm = run_op(100, 100, ADD);
    assert_eq!((vm.ac, vm.carry, vm.overflow), (200, false, true));
    let vm = run_op(200, 100, ADD);
    assert_eq!((vm.ac, vm.carry, vm.overflow), (44, true, false));
    let vm = run_op(0x80, 0x80, ADD);
    assert_eq!((vm.ac, vm.carry, vm.overflow), (0, true, true));
}

#[test]
fn ahmes_sub_flags() {
    let vm = run_op(3, 5, SUB);
    assert_eq!((vm.ac, vm.borrow, vm.overflow), (254, true, false));
    let vm = run_op(0x80, 1, SUB);
    assert_eq!((vm.ac, vm.borrow, vm.overflow), (0x7F, false, true));
    let vm = run_op(5, 5, SUB);
    assert_eq!((vm.ac, vm.borrow, vm.overflow), (0, false, false));
}

#[test]
fn ahmes_shifts_and_rotates() {
    let mut vm = Machine::new();
    vm.ac = 0x81;
    vm.mem[0x0] = SHR;
    vm.mem[0x1] = ROR;
    vm.mem[0x2] = SHL;
    vm.mem[0x3] = ROL;
    vm.mem[0x4] = HLT;
    vm.cycle();
    assert_eq!((vm.ac, vm.carry), (0x40, true));
    vm.cycle();
    assert_eq!((vm.ac, vm.carry), (0xA0, false));
    vm.cycle();
    assert_eq!((vm.ac, vm.carry), (0x40, true));
    vm.cycle();
    assert_eq!((vm.ac, vm.carry), (0x81, false));
}

#[test]
fn ahmes_conditional_jumps() {
    let mut vm = Machine::new();
    vm.overflow = true;
    vm.mem[0x0] = JV;
    vm.mem[0x1] = 0x40;
    vm.cycle();
    assert_eq!(vm.pc, 0x40);
    let mut vm = Machine::new();
    vm.mem[0x0] = JC;
    vm.mem[0x1] = 0x40;
    vm.cycle();
    assert_eq!(vm.pc, 2);
    let mut vm = Machine::new();
    vm.borrow = true;
    vm.mem[0x0] = JB;
    vm.mem[0x1] = 0x40;
    vm.cycle();
    assert_eq!(vm.pc, 0x40);
}

#[test]
fn ahmes_instr_table() {
    let jp = InstrInfo::new(0x97).unwrap();
    assert_eq!((jp.mnemonic, jp.operand), ("JP", true));
    let rol = InstrInfo::new(ROL).unwrap();
    assert_eq!((rol.mnemonic, rol.operand), ("ROL", false));
    assert!(InstrInfo::new(0x84).is_none());
    assert!(InstrInfo::new(0xE4).is_none());
    assert!(InstrInfo::new(0xC0).is_none());
    assert_eq!(niahu::ahmes::decode(0xBD), Some(Op::Jnb));
}

#[test]
fn ahmes_registers_text() {
    let mut vm = Machine::new();
    vm.ac = 0;
    vm.pc = 200;
    vm.carry = true;
    let text = vm.display_registers(false);
    assert_eq!(
        String::from_utf8(text).unwrap(),
        "ac = 000\npc = 200\nn  = 000\nz  = 001\nv  = 00\nc  = 01\nb  = 00\n"
    );
}

#[test]
fn ahmes_listing_operand_not_decoded() {
    let mut vm = Machine::new();
    vm.mem[0x10] = JZ;
    vm.mem[0x11] = HLT;
    vm.mem[0x12] = SHL;
    let text = vm.display_mem_opcodes(&[0x10, 0x11, 0x12], true);
    assert_eq!(
        String::from_utf8(text).unwrap(),
        "10 = A0  JZ\n11 = F0\n12 = E1  SHL\n"
    );
}
