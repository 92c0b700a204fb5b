//! The Ahmes machine: Neander's accumulator machine extended with
//! subtraction, the overflow, carry and borrow flags, conditional jumps on
//! every flag, and shifts and rotates.
use crate::codec::{
    cells, check_frame, counters_and_cells, frame_outcome, le_bytes, le_value, push_all, push_cells, push_u64_le,
    read_cells, read_u64_le, uncells, FileKind, LoadError, HEADER_LEN,
};
use crate::listing::{
    code_listing, code_text, data_listing, data_text, push_register, register_text,
    stats_listing, stats_text, InstructionSet,
};
use crate::memory::{bump, flag_byte, flag_to_byte, next_addr, same_bytes, signed, to_signed};
use vstd::prelude::*;
use vstd::string::StringSliceAdditionalSpecFns;

verus! {

/// Opcode of NOP
pub const NOP: u8 = 0x0;

/// Opcode of STA _addr_
pub const STA: u8 = 0x10;

/// Opcode of LDA _addr_
pub const LDA: u8 = 0x20;

/// Opcode of ADD _addr_
pub const ADD: u8 = 0x30;

/// Opcode of OR _addr_
pub const OR: u8 = 0x40;

/// Opcode of AND _addr_
pub const AND: u8 = 0x50;

/// Opcode of NOT
pub const NOT: u8 = 0x60;

/// Opcode of SUB _addr_
pub const SUB: u8 = 0x70;

/// Opcode of JMP _addr_
pub const JMP: u8 = 0x80;

/// Opcode of JN _addr_
pub const JN: u8 = 0x90;

/// Opcode of JP _addr_
pub const JP: u8 = 0x94;

/// Opcode of JV _addr_
pub const JV: u8 = 0x98;

/// Opcode of JNV _addr_
pub const JNV: u8 = 0x9C;

/// Opcode of JZ _addr_
pub const JZ: u8 = 0xA0;

/// Opcode of JNZ _addr_
pub const JNZ: u8 = 0xA4;

/// Opcode of JC _addr_
pub const JC: u8 = 0xB0;

/// Opcode of JNC _addr_
pub const JNC: u8 = 0xB4;

/// Opcode of JB _addr_
pub const JB: u8 = 0xB8;

/// Opcode of JNB _addr_
pub const JNB: u8 = 0xBC;

/// Opcode of SHR
pub const SHR: u8 = 0xE0;

/// Opcode of SHL
pub const SHL: u8 = 0xE1;

/// Opcode of ROR
pub const ROR: u8 = 0xE2;

/// Opcode of ROL
pub const ROL: u8 = 0xE3;

/// Opcode of HLT
pub const HLT: u8 = 0xF0;

/// Header of a memory image file.
pub const MEM_HEADER: [u8; 4] = [0x03, 0x41, 0x48, 0x4D];

/// Header of a state snapshot file.
pub const STATE_HEADER: [u8; 4] = [0x04, 0x41, 0x48, 0x4D];

/// Length of a memory image file.
pub const MEM_FILE_LEN: usize = 516;

/// Length of a state snapshot file: header, instruction register, program
/// counter, accumulator, the overflow, carry, borrow and running flags, two
/// counters and the memory.
pub const STATE_FILE_LEN: usize = 539;

/// An Ahmes instruction.
#[derive(Debug, Clone, Copy, PartialEq, Eq)]
pub enum Op {
    Nop,
    Sta,
    Lda,
    Add,
    Or,
    And,
    Not,
    Sub,
    Jmp,
    Jn,
    Jp,
    Jv,
    Jnv,
    Jz,
    Jnz,
    Jc,
    Jnc,
    Jb,
    Jnb,
    Shr,
    Shl,
    Ror,
    Rol,
    Hlt,
}

/// The instruction that `opcode` names, if any.  The high nibble picks
/// NOP to SUB and HLT, the six high bits pick the jumps, and the whole byte
/// picks the shifts and rotates.
pub open spec fn spec_decode(opcode: u8) -> Option<Op> {
    let hi = opcode & 0xF0;
    let mid = opcode & 0xFC;
    if hi == 0x00 {
        Some(Op::Nop)
    } else if hi == 0x10 {
        Some(Op::Sta)
    } else if hi == 0x20 {
        Some(Op::Lda)
    } else if hi == 0x30 {
        Some(Op::Add)
    } else if hi == 0x40 {
        Some(Op::Or)
    } else if hi == 0x50 {
        Some(Op::And)
    } else if hi == 0x60 {
        Some(Op::Not)
    } else if hi == 0x70 {
        Some(Op::Sub)
    } else if mid == 0x80 {
        Some(Op::Jmp)
    } else if mid == 0x90 {
        Some(Op::Jn)
    } else if mid == 0x94 {
        Some(Op::Jp)
    } else if mid == 0x98 {
        Some(Op::Jv)
    } else if mid == 0x9C {
        Some(Op::Jnv)
    } else if mid == 0xA0 {
        Some(Op::Jz)
    } else if mid == 0xA4 {
        Some(Op::Jnz)
    } else if mid == 0xB0 {
        Some(Op::Jc)
    } else if mid == 0xB4 {
        Some(Op::Jnc)
    } else if mid == 0xB8 {
        Some(Op::Jb)
    } else if mid == 0xBC {
        Some(Op::Jnb)
    } else if opcode == 0xE0 {
        Some(Op::Shr)
    } else if opcode == 0xE1 {
        Some(Op::Shl)
    } else if opcode == 0xE2 {
        Some(Op::Ror)
    } else if opcode == 0xE3 {
        Some(Op::Rol)
    } else if hi == 0xF0 {
        Some(Op::Hlt)
    } else {
        None
    }
}

/// Decodes `opcode`.
pub fn decode(opcode: u8) -> (r: Option<Op>)
    ensures
        r == spec_decode(opcode),
{
    let hi = opcode & 0xF0;
    let mid = opcode & 0xFC;
    if hi == 0x00 {
        Some(Op::Nop)
    } else if hi == 0x10 {
        Some(Op::Sta)
    } else if hi == 0x20 {
        Some(Op::Lda)
    } else if hi == 0x30 {
        Some(Op::Add)
    } else if hi == 0x40 {
        Some(Op::Or)
    } else if hi == 0x50 {
        Some(Op::And)
    } else if hi == 0x60 {
        Some(Op::Not)
    } else if hi == 0x70 {
        Some(Op::Sub)
    } else if mid == 0x80 {
        Some(Op::Jmp)
    } else if mid == 0x90 {
        Some(Op::Jn)
    } else if mid == 0x94 {
        Some(Op::Jp)
    } else if mid == 0x98 {
        Some(Op::Jv)
    } else if mid == 0x9C {
        Some(Op::Jnv)
    } else if mid == 0xA0 {
        Some(Op::Jz)
    } else if mid == 0xA4 {
        Some(Op::Jnz)
    } else if mid == 0xB0 {
        Some(Op::Jc)
    } else if mid == 0xB4 {
        Some(Op::Jnc)
    } else if mid == 0xB8 {
        Some(Op::Jb)
    } else if mid == 0xBC {
        Some(Op::Jnb)
    } else if opcode == 0xE0 {
        Some(Op::Shr)
    } else if opcode == 0xE1 {
        Some(Op::Shl)
    } else if opcode == 0xE2 {
        Some(Op::Ror)
    } else if opcode == 0xE3 {
        Some(Op::Rol)
    } else if hi == 0xF0 {
        Some(Op::Hlt)
    } else {
        None
    }
}

/// Mnemonic of an instruction.
pub open spec fn spec_mnemonic(op: Op) -> &'static str {
    match op {
        Op::Nop => "NOP",
        Op::Sta => "STA",
        Op::Lda => "LDA",
        Op::Add => "ADD",
        Op::Or => "OR",
        Op::And => "AND",
        Op::Not => "NOT",
        Op::Sub => "SUB",
        Op::Jmp => "JMP",
        Op::Jn => "JN",
        Op::Jp => "JP",
        Op::Jv => "JV",
        Op::Jnv => "JNV",
        Op::Jz => "JZ",
        Op::Jnz => "JNZ",
        Op::Jc => "JC",
        Op::Jnc => "JNC",
        Op::Jb => "JB",
        Op::Jnb => "JNB",
        Op::Shr => "SHR",
        Op::Shl => "SHL",
        Op::Ror => "ROR",
        Op::Rol => "ROL",
        Op::Hlt => "HLT",
    }
}

/// Whether an operand byte follows the instruction's opcode.
pub open spec fn spec_has_operand(op: Op) -> bool {
    match op {
        Op::Nop => false,
        Op::Sta => true,
        Op::Lda => true,
        Op::Add => true,
        Op::Or => true,
        Op::And => true,
        Op::Not => false,
        Op::Sub => true,
        Op::Jmp => true,
        Op::Jn => true,
        Op::Jp => true,
        Op::Jv => true,
        Op::Jnv => true,
        Op::Jz => true,
        Op::Jnz => true,
        Op::Jc => true,
        Op::Jnc => true,
        Op::Jb => true,
        Op::Jnb => true,
        Op::Shr => false,
        Op::Shl => false,
        Op::Ror => false,
        Op::Rol => false,
        Op::Hlt => false,
    }
}

impl Op {
    /// Mnemonic of the instruction.
    pub fn mnemonic(self) -> (r: &'static str)
        ensures
            r == spec_mnemonic(self),
    {
        match self {
            Op::Nop => "NOP",
            Op::Sta => "STA",
            Op::Lda => "LDA",
            Op::Add => "ADD",
            Op::Or => "OR",
            Op::And => "AND",
            Op::Not => "NOT",
            Op::Sub => "SUB",
            Op::Jmp => "JMP",
            Op::Jn => "JN",
            Op::Jp => "JP",
            Op::Jv => "JV",
            Op::Jnv => "JNV",
            Op::Jz => "JZ",
            Op::Jnz => "JNZ",
            Op::Jc => "JC",
            Op::Jnc => "JNC",
            Op::Jb => "JB",
            Op::Jnb => "JNB",
            Op::Shr => "SHR",
            Op::Shl => "SHL",
            Op::Ror => "ROR",
            Op::Rol => "ROL",
            Op::Hlt => "HLT",
        }
    }

    /// Whether an operand byte follows the instruction's opcode.
    pub fn has_operand(self) -> (r: bool)
        ensures
            r == spec_has_operand(self),
    {
        match self {
            Op::Nop => false,
            Op::Sta => true,
            Op::Lda => true,
            Op::Add => true,
            Op::Or => true,
            Op::And => true,
            Op::Not => false,
            Op::Sub => true,
            Op::Jmp => true,
            Op::Jn => true,
            Op::Jp => true,
            Op::Jv => true,
            Op::Jnv => true,
            Op::Jz => true,
            Op::Jnz => true,
            Op::Jc => true,
            Op::Jnc => true,
            Op::Jb => true,
            Op::Jnb => true,
            Op::Shr => false,
            Op::Shl => false,
            Op::Ror => false,
            Op::Rol => false,
            Op::Hlt => false,
        }
    }
}

/// What the instruction table says of an opcode.
#[derive(Debug, Clone, Copy)]
pub struct InstrInfo {
    /// Mnemonic of the instruction.
    pub mnemonic: &'static str,
    /// Whether an operand byte follows the opcode.
    pub operand: bool,
}

/// The instruction table entry of `opcode`.
pub open spec fn instr_info(opcode: u8) -> Option<InstrInfo> {
    match spec_decode(opcode) {
        Some(op) => Some(InstrInfo { mnemonic: spec_mnemonic(op), operand: spec_has_operand(op) }),
        None => None,
    }
}

impl InstrInfo {
    /// Looks `opcode` up in the instruction table.
    pub fn new(opcode: u8) -> (r: Option<Self>)
        ensures
            r == instr_info(opcode),
    {
        match decode(opcode) {
            Some(op) => Some(Self { mnemonic: op.mnemonic(), operand: op.has_operand() }),
            None => None,
        }
    }
}

impl InstructionSet for InstrInfo {
    open spec fn spec_lookup(opcode: u8) -> Option<(&'static str, bool)> {
        match instr_info(opcode) {
            Some(i) => Some((i.mnemonic, i.operand)),
            None => None,
        }
    }

    fn lookup(opcode: u8) -> (r: Option<(&'static str, bool)>) {
        match InstrInfo::new(opcode) {
            Some(i) => Some((i.mnemonic, i.operand)),
            None => None,
        }
    }
}

/// An Ahmes machine.
#[derive(Debug, Clone)]
pub struct Machine {
    /// Instruction register: the last byte fetched.
    pub ri: u8,
    /// Program counter: address of the next byte to fetch.
    pub pc: u8,
    /// Accumulator.
    pub ac: u8,
    /// Whether the last ADD or SUB overflowed as a signed operation.
    pub overflow: bool,
    /// Carry out of the last ADD or shift.
    pub carry: bool,
    /// Borrow of the last SUB.
    pub borrow: bool,
    /// Memory.
    pub mem: [u8; 256],
    /// Whether the machine runs on; cleared by HLT.
    pub cycling: bool,
    /// Fetch-decode-execute cycles since the program counter was last set.
    pub cycles: u64,
    /// Accounted memory accesses since the program counter was last set.
    pub accesses: u64,
}

/// The mathematical state of an Ahmes machine.
pub struct State {
    pub ri: u8,
    pub pc: u8,
    pub ac: u8,
    pub overflow: bool,
    pub carry: bool,
    pub borrow: bool,
    pub mem: Seq<u8>,
    pub cycling: bool,
    pub cycles: u64,
    pub accesses: u64,
}

impl View for Machine {
    type V = State;

    open spec fn view(&self) -> State {
        State {
            ri: self.ri,
            pc: self.pc,
            ac: self.ac,
            overflow: self.overflow,
            carry: self.carry,
            borrow: self.borrow,
            mem: self.mem@,
            cycling: self.cycling,
            cycles: self.cycles,
            accesses: self.accesses,
        }
    }
}

/// A machine at rest: every register, flag, counter and memory byte zero.
pub open spec fn initial() -> State {
    State {
        ri: 0,
        pc: 0,
        ac: 0,
        overflow: false,
        carry: false,
        borrow: false,
        mem: Seq::new(256, |i: int| 0u8),
        cycling: false,
        cycles: 0,
        accesses: 0,
    }
}

/// The state after one accounted memory access that changes nothing else.
pub open spec fn touch(s: State) -> State {
    State { accesses: bump(s.accesses), ..s }
}

/// The state after an accounted write of `v` at `addr`.
pub open spec fn store(s: State, addr: u8, v: u8) -> State {
    State { mem: s.mem.update(addr as int, v), accesses: bump(s.accesses), ..s }
}

/// The state after fetching the byte at the program counter into the
/// instruction register.
pub open spec fn fetch(s: State) -> State {
    State { ri: s.mem[s.pc as int], pc: next_addr(s.pc), accesses: bump(s.accesses), ..s }
}

/// The state after fetching an operand address and reading the byte there.
pub open spec fn load_operand(s: State) -> State {
    touch(fetch(s))
}

/// The byte that an instruction with an address operand works on.
pub open spec fn operand(s: State) -> u8 {
    fetch(s).mem[fetch(s).ri as int]
}

/// The state after fetching a jump target, then jumping when `cond` holds.
pub open spec fn jump_if(s: State, cond: bool) -> State {
    if cond {
        State { pc: fetch(s).ri, ..fetch(s) }
    } else {
        fetch(s)
    }
}

/// The state after ADD: the sum modulo 256, the carry out, and signed
/// overflow.
pub open spec fn add_result(s: State) -> State {
    let x = s.ac;
    let y = operand(s);
    State {
        ac: ((x + y) % 256) as u8,
        carry: x + y > 255,
        overflow: !(-128 <= signed(x) + signed(y) <= 127),
        ..load_operand(s)
    }
}

/// The state after SUB: the difference modulo 256, the borrow, and signed
/// overflow.
pub open spec fn sub_result(s: State) -> State {
    let x = s.ac;
    let y = operand(s);
    State {
        ac: ((x - y + 256) % 256) as u8,
        borrow: x < y,
        overflow: !(-128 <= signed(x) - signed(y) <= 127),
        ..load_operand(s)
    }
}

/// The state after ROR: the accumulator moves right one bit, the old carry
/// enters the top bit and the bit shifted out becomes the carry.
pub open spec fn ror(s: State) -> State {
    State {
        ac: s.ac >> 1u8 | if s.carry {
            0x80u8
        } else {
            0u8
        },
        carry: s.ac & 1 != 0,
        ..s
    }
}

/// The state after ROL: the accumulator moves left one bit, the old carry
/// enters the bottom bit and the bit shifted out becomes the carry.
pub open spec fn rol(s: State) -> State {
    State { ac: s.ac << 1u8 | flag_byte(s.carry), carry: s.ac & 0x80 != 0, ..s }
}

/// The state after the instruction whose opcode sits in the instruction
/// register runs, fetching its operand first when it has one.  Opcodes
/// outside the table change nothing.
pub open spec fn exec_op(s: State) -> State {
    match spec_decode(s.ri) {
        None => s,
        Some(op) => match op {
            Op::Nop => s,
            Op::Sta => store(fetch(s), fetch(s).ri, s.ac),
            Op::Lda => State { ac: operand(s), ..load_operand(s) },
            Op::Add => add_result(s),
            Op::Or => State { ac: s.ac | operand(s), ..load_operand(s) },
            Op::And => State { ac: s.ac & operand(s), ..load_operand(s) },
            Op::Not => State { ac: !s.ac, ..s },
            Op::Sub => sub_result(s),
            Op::Jmp => jump_if(s, true),
            Op::Jn => jump_if(s, s.ac & 0x80 != 0),
            Op::Jp => jump_if(s, s.ac & 0x80 == 0),
            Op::Jv => jump_if(s, s.overflow),
            Op::Jnv => jump_if(s, !s.overflow),
            Op::Jz => jump_if(s, s.ac == 0),
            Op::Jnz => jump_if(s, s.ac != 0),
            Op::Jc => jump_if(s, s.carry),
            Op::Jnc => jump_if(s, !s.carry),
            Op::Jb => jump_if(s, s.borrow),
            Op::Jnb => jump_if(s, !s.borrow),
            Op::Shr => State { ac: s.ac >> 1u8, carry: s.ac & 1 != 0, ..s },
            Op::Shl => State { ac: s.ac << 1u8, carry: s.ac & 0x80 != 0, ..s },
            Op::Ror => ror(s),
            Op::Rol => rol(s),
            Op::Hlt => State { cycling: false, ..s },
        },
    }
}

/// One fetch-decode-execute cycle.
pub open spec fn step(s: State) -> State {
    exec_op(fetch(State { cycles: (s.cycles + 1) as u64, ..s }))
}

/// The state in which a continuous run starts: running set.
pub open spec fn started(s: State) -> State {
    State { cycling: true, ..s }
}

/// The state after `n` cycles.
pub open spec fn run(s: State, n: nat) -> State
    decreases n,
{
    if n == 0 {
        s
    } else {
        step(run(s, (n - 1) as nat))
    }
}

/// The bytes of a memory image of `mem`.
pub open spec fn mem_file(mem: Seq<u8>) -> Seq<u8> {
    MEM_HEADER@ + cells(mem)
}

/// The bytes before the counters in a state snapshot of `s`.
pub open spec fn state_head(s: State) -> Seq<u8> {
    STATE_HEADER@ + seq![
        s.ri,
        s.pc,
        s.ac,
        flag_byte(s.overflow),
        flag_byte(s.carry),
        flag_byte(s.borrow),
        flag_byte(s.cycling),
    ]
}

/// The bytes of a state snapshot of `s`.
pub open spec fn state_file(s: State) -> Seq<u8> {
    counters_and_cells(state_head(s), s.cycles, s.accesses, s.mem)
}

/// The state that a well-framed snapshot `b` describes.
pub open spec fn state_of_file(b: Seq<u8>) -> State {
    State {
        ri: b[4],
        pc: b[5],
        ac: b[6],
        overflow: b[7] != 0,
        carry: b[8] != 0,
        borrow: b[9] != 0,
        cycling: b[10] != 0,
        cycles: le_value(b, 11),
        accesses: le_value(b, 19),
        mem: uncells(b, 27),
    }
}

/// The register display: accumulator, program counter, and the N, Z, V, C
/// and B flags.  In decimal the V, C and B lines still use two hexadecimal
/// digits.
pub open spec fn registers_text(s: State, hex: bool) -> Seq<u8> {
    register_text("ac".spec_bytes(), s.ac, hex) + register_text("pc".spec_bytes(), s.pc, hex)
        + register_text("n ".spec_bytes(), s.ac >> 7, hex) + register_text(
        "z ".spec_bytes(),
        flag_byte(s.ac == 0),
        hex,
    ) + register_text("v ".spec_bytes(), flag_byte(s.overflow), true) + register_text(
        "c ".spec_bytes(),
        flag_byte(s.carry),
        true,
    ) + register_text("b ".spec_bytes(), flag_byte(s.borrow), true)
}

impl Machine {
    /// A machine with every register, flag, counter and memory byte zero.
    pub fn new() -> (m: Self)
        ensures
            m@ == initial(),
    {
        let m = Machine {
            ri: 0,
            pc: 0,
            ac: 0,
            overflow: false,
            carry: false,
            borrow: false,
            mem: [0u8; 256],
            cycling: false,
            cycles: 0,
            accesses: 0,
        };
        assert(m.mem@ =~= initial().mem);
        m
    }

    /// Reads the byte at `addr`, counting one access.
    pub fn read(&mut self, addr: u8) -> (v: u8)
        ensures
            v == old(self).mem@[addr as int],
            final(self)@ == touch(old(self)@),
    {
        self.accesses = self.accesses.saturating_add(1);
        self.mem[addr as usize]
    }

    /// Writes `byte` at `addr`, counting one access.
    pub fn write(&mut self, addr: u8, byte: u8)
        ensures
            final(self)@ == store(old(self)@, addr, byte),
    {
        self.accesses = self.accesses.saturating_add(1);
        self.mem[addr as usize] = byte;
    }

    /// Sets the program counter and starts the counters afresh.
    pub fn set_pc(&mut self, data: u8)
        ensures
            final(self)@ == (State { pc: data, cycles: 0, accesses: 0, ..old(self)@ }),
    {
        self.pc = data;
        self.cycles = 0;
        self.accesses = 0;
    }

    /// Writes `data` at `addr` without counting an access: for loading and
    /// patching programs.
    pub fn write_raw(&mut self, addr: u8, data: u8)
        ensures
            final(self)@ == (State { mem: old(self)@.mem.update(addr as int, data), ..old(self)@ }),
    {
        self.mem[addr as usize] = data;
    }

    /// Runs one fetch-decode-execute cycle.
    pub fn cycle(&mut self)
        requires
            old(self).cycles < u64::MAX,
        ensures
            final(self)@ == step(old(self)@),
    {
        self.cycles = self.cycles + 1;
        self.fetch();
        self.decode_exec();
    }

    /// Runs cycles until HLT clears the running flag.  A program that never
    /// halts runs until the cycle counter can count no further.
    pub fn execute(&mut self)
        ensures
            final(self).cycles >= old(self).cycles,
            final(self)@ == run(started(old(self)@), (final(self).cycles - old(self).cycles) as nat),
            forall|j: nat|
                j < final(self).cycles - old(self).cycles ==> (#[trigger] run(
                    started(old(self)@),
                    j,
                )).cycling,
            !final(self).cycling || final(self).cycles == u64::MAX,
    {
        self.cycling = true;
        let ghost start = self@;
        let ghost mut n: nat = 0;
        while self.cycling && self.cycles < u64::MAX
            invariant
                start == started(old(self)@),
                self@ == run(start, n),
                self.cycles == old(self).cycles + n,
                forall|j: nat| j < n ==> (#[trigger] run(start, j)).cycling,
            decreases u64::MAX - self.cycles,
        {
            proof {
                assert(run(start, n).cycling);
            }
            self.cycle();
            proof {
                n = n + 1;
            }
        }
    }

    /// Fetches the byte at the program counter into the instruction
    /// register and advances the program counter.
    pub fn fetch(&mut self)
        ensures
            final(self)@ == fetch(old(self)@),
    {
        self.ri = self.read(self.pc);
        self.pc = self.pc.wrapping_add(1);
    }

    /// Runs the instruction in the instruction register.
    pub fn decode_exec(&mut self)
        ensures
            final(self)@ == exec_op(old(self)@),
    {
        match decode(self.ri) {
            None => {},
            Some(op) => match op {
                Op::Nop => self.exec_nop(),
                Op::Sta => self.exec_sta(),
                Op::Lda => self.exec_lda(),
                Op::Add => self.exec_add(),
                Op::Or => self.exec_or(),
                Op::And => self.exec_and(),
                Op::Not => self.exec_not(),
                Op::Sub => self.exec_sub(),
                Op::Jmp => self.exec_jmp(),
                Op::Jn => self.exec_jn(),
                Op::Jp => self.exec_jp(),
                Op::Jv => self.exec_jv(),
                Op::Jnv => self.exec_jnv(),
                Op::Jz => self.exec_jz(),
                Op::Jnz => self.exec_jnz(),
                Op::Jc => self.exec_jc(),
                Op::Jnc => self.exec_jnc(),
                Op::Jb => self.exec_jb(),
                Op::Jnb => self.exec_jnb(),
                Op::Shr => self.exec_shr(),
                Op::Shl => self.exec_shl(),
                Op::Ror => self.exec_ror(),
                Op::Rol => self.exec_rol(),
                Op::Hlt => self.exec_hlt(),
            },
        }
    }

    fn exec_nop(&mut self)
        ensures
            *final(self) == *old(self),
    {
    }

    fn exec_sta(&mut self)
        ensures
            final(self)@ == store(fetch(old(self)@), fetch(old(self)@).ri, old(self).ac),
    {
        self.fetch();
        self.write(self.ri, self.ac);
    }

    fn exec_lda(&mut self)
        ensures
            final(self)@ == (State { ac: operand(old(self)@), ..load_operand(old(self)@) }),
    {
        self.fetch();
        self.ac = self.read(self.ri);
    }

    fn exec_add(&mut self)
        ensures
            final(self)@ == add_result(old(self)@),
    {
        self.fetch();
        let operand = self.read(self.ri);
        let sum: u16 = self.ac as u16 + operand as u16;
        let signed_sum: i16 = to_signed(self.ac) + to_signed(operand);
        self.ac = (sum % 256) as u8;
        self.overflow = signed_sum < -128 || signed_sum > 127;
        self.carry = sum > 255;
    }

    fn exec_or(&mut self)
        ensures
            final(self)@ == (State { ac: old(self).ac | operand(old(self)@), ..load_operand(old(self)@) }),
    {
        self.fetch();
        let operand = self.read(self.ri);
        self.ac = self.ac | operand;
    }

    fn exec_and(&mut self)
        ensures
            final(self)@ == (State { ac: old(self).ac & operand(old(self)@), ..load_operand(old(self)@) }),
    {
        self.fetch();
        let operand = self.read(self.ri);
        self.ac = self.ac & operand;
    }

    fn exec_not(&mut self)
        ensures
            final(self)@ == (State { ac: !old(self).ac, ..old(self)@ }),
    {
        self.ac = !self.ac;
    }

    fn exec_sub(&mut self)
        ensures
            final(self)@ == sub_result(old(self)@),
    {
        self.fetch();
        let operand = self.read(self.ri);
        let signed_diff: i16 = to_signed(self.ac) - to_signed(operand);
        self.borrow = self.ac < operand;
        self.ac = self.ac.wrapping_sub(operand);
        self.overflow = signed_diff < -128 || signed_diff > 127;
    }

    /// Fetches a jump target and jumps there when `cond` holds.
    fn jump_when(&mut self, cond: bool)
        ensures
            final(self)@ == jump_if(old(self)@, cond),
    {
        self.fetch();
        if cond {
            self.pc = self.ri;
        }
    }

    fn exec_jmp(&mut self)
        ensures
            final(self)@ == jump_if(old(self)@, true),
    {
        self.jump_when(true);
    }

    fn exec_jn(&mut self)
        ensures
            final(self)@ == jump_if(old(self)@, old(self).ac & 0x80 != 0),
    {
        self.jump_when(self.ac & 0x80 != 0);
    }

    fn exec_jp(&mut self)
        ensures
            final(self)@ == jump_if(old(self)@, old(self).ac & 0x80 == 0),
    {
        self.jump_when(self.ac & 0x80 == 0);
    }

    fn exec_jv(&mut self)
        ensures
            final(self)@ == jump_if(old(self)@, old(self).overflow),
    {
        self.jump_when(self.overflow);
    }

    fn exec_jnv(&mut self)
        ensures
            final(self)@ == jump_if(old(self)@, !old(self).overflow),
    {
        self.jump_when(!self.overflow);
    }

    fn exec_jz(&mut self)
        ensures
            final(self)@ == jump_if(old(self)@, old(self).ac == 0),
    {
        self.jump_when(self.ac == 0);
    }

    fn exec_jnz(&mut self)
        ensures
            final(self)@ == jump_if(old(self)@, old(self).ac != 0),
    {
        self.jump_when(self.ac != 0);
    }

    fn exec_jc(&mut self)
        ensures
            final(self)@ == jump_if(old(self)@, old(self).carry),
    {
        self.jump_when(self.carry);
    }

    fn exec_jnc(&mut self)
        ensures
            final(self)@ == jump_if(old(self)@, !old(self).carry),
    {
        self.jump_when(!self.carry);
    }

    fn exec_jb(&mut self)
        ensures
            final(self)@ == jump_if(old(self)@, old(self).borrow),
    {
        self.jump_when(self.borrow);
    }

    fn exec_jnb(&mut self)
        ensures
            final(self)@ == jump_if(old(self)@, !old(self).borrow),
    {
        self.jump_when(!self.borrow);
    }

    fn exec_shr(&mut self)
        ensures
            final(self)@ == (State { ac: old(self).ac >> 1u8, carry: old(self).ac & 1 != 0, ..old(self)@ }),
    {
        self.carry = self.ac & 1 != 0;
        self.ac = self.ac >> 1u8;
    }

    fn exec_shl(&mut self)
        ensures
            final(self)@ == (State {
                ac: old(self).ac << 1u8,
                carry: old(self).ac & 0x80 != 0,
                ..old(self)@
            }),
    {
        self.carry = self.ac & 0x80 != 0;
        self.ac = self.ac << 1u8;
    }

    fn exec_ror(&mut self)
        ensures
            final(self)@ == ror(old(self)@),
    {
        let prev_carry: u8 = if self.carry {
            0x80
        } else {
            0x0
        };
        self.carry = self.ac & 1 != 0;
        self.ac = self.ac >> 1u8;
        self.ac = self.ac | prev_carry;
    }

    fn exec_rol(&mut self)
        ensures
            final(self)@ == rol(old(self)@),
    {
        let prev_carry: u8 = if self.carry {
            0x1
        } else {
            0x0
        };
        self.carry = self.ac & 0x80 != 0;
        self.ac = self.ac << 1u8;
        self.ac = self.ac | prev_carry;
    }

    fn exec_hlt(&mut self)
        ensures
            final(self)@ == (State { cycling: false, ..old(self)@ }),
    {
        self.cycling = false;
    }

    /// Encodes the memory as a memory image file.
    pub fn save_mem(&self) -> (bytes: Vec<u8>)
        ensures
            bytes@ == mem_file(self.mem@),
    {
        let mut out: Vec<u8> = Vec::new();
        push_all(&mut out, &MEM_HEADER);
        push_cells(&mut out, &self.mem);
        out
    }

    /// Loads the memory from a memory image file.  On an error nothing
    /// changes.
    pub fn load_mem(&mut self, input: &[u8]) -> (r: Result<(), LoadError>)
        ensures
            r == frame_outcome(input@, MEM_HEADER@, MEM_FILE_LEN as nat),
            r is Ok ==> final(self)@ == (State { mem: uncells(input@, 4), ..old(self)@ }),
            r is Err ==> *final(self) == *old(self),
    {
        match check_frame(input, &MEM_HEADER, MEM_FILE_LEN) {
            Ok(()) => {},
            Err(e) => {
                return Err(e);
            },
        }
        self.mem = read_cells(input, HEADER_LEN);
        Ok(())
    }

    /// Encodes the whole machine state as a state snapshot file.
    pub fn save_state(&self) -> (bytes: Vec<u8>)
        ensures
            bytes@ == state_file(self@),
    {
        let mut out: Vec<u8> = Vec::new();
        push_all(&mut out, &STATE_HEADER);
        out.push(self.ri);
        out.push(self.pc);
        out.push(self.ac);
        out.push(flag_to_byte(self.overflow));
        out.push(flag_to_byte(self.carry));
        out.push(flag_to_byte(self.borrow));
        out.push(flag_to_byte(self.cycling));
        push_u64_le(&mut out, self.cycles);
        push_u64_le(&mut out, self.accesses);
        push_cells(&mut out, &self.mem);
        assert(out@ =~= state_file(self@));
        out
    }

    /// Loads the whole machine state from a state snapshot file.  On an
    /// error nothing changes.
    pub fn load_state(&mut self, input: &[u8]) -> (r: Result<(), LoadError>)
        ensures
            r == frame_outcome(input@, STATE_HEADER@, STATE_FILE_LEN as nat),
            r is Ok ==> final(self)@ == state_of_file(input@),
            r is Err ==> *final(self) == *old(self),
    {
        match check_frame(input, &STATE_HEADER, STATE_FILE_LEN) {
            Ok(()) => {},
            Err(e) => {
                return Err(e);
            },
        }
        self.ri = input[4];
        self.pc = input[5];
        self.ac = input[6];
        self.overflow = input[7] != 0;
        self.carry = input[8] != 0;
        self.borrow = input[9] != 0;
        self.cycling = input[10] != 0;
        self.cycles = read_u64_le(input, 11);
        self.accesses = read_u64_le(input, 19);
        self.mem = read_cells(input, 27);
        Ok(())
    }

    /// Encodes the machine as a file of the given kind: a memory image or a
    /// state snapshot.
    pub fn save_as(&self, kind: FileKind) -> (bytes: Vec<u8>)
        ensures
            bytes@ == match kind {
                FileKind::Mem => mem_file(self.mem@),
                FileKind::State => state_file(self@),
            },
    {
        match kind {
            FileKind::Mem => self.save_mem(),
            FileKind::State => self.save_state(),
        }
    }

    /// Loads a file of the given kind: a memory image or a state snapshot.
    /// On an error nothing changes.
    pub fn load_as(&mut self, kind: FileKind, input: &[u8]) -> (r: Result<(), LoadError>)
        ensures
            kind == FileKind::Mem ==> r == frame_outcome(input@, MEM_HEADER@, MEM_FILE_LEN as nat),
            kind == FileKind::State ==> r == frame_outcome(
                input@,
                STATE_HEADER@,
                STATE_FILE_LEN as nat,
            ),
            r is Ok && kind == FileKind::Mem ==> final(self)@ == (State {
                mem: uncells(input@, 4),
                ..old(self)@
            }),
            r is Ok && kind == FileKind::State ==> final(self)@ == state_of_file(input@),
            r is Err ==> *final(self) == *old(self),
    {
        match kind {
            FileKind::Mem => self.load_mem(input),
            FileKind::State => self.load_state(input),
        }
    }

    /// Memory dump of the addresses in `addrs`, in that order.  Reads
    /// bypass the access counter.
    pub fn display_mem_data(&self, addrs: &[u8], hex: bool) -> (text: Vec<u8>)
        ensures
            text@ == data_text(self.mem@, addrs@, hex),
    {
        data_listing(&self.mem, addrs, hex)
    }

    /// Disassembly listing of the addresses in `addrs`, in that order.
    /// Reads bypass the access counter.
    pub fn display_mem_opcodes(&self, addrs: &[u8], hex: bool) -> (text: Vec<u8>)
        ensures
            text@ == code_text::<InstrInfo>(self.mem@, addrs@, hex, false),
    {
        code_listing::<InstrInfo>(&self.mem, addrs, hex)
    }

    /// The registers and the flags.
    pub fn display_registers(&self, hex: bool) -> (text: Vec<u8>)
        ensures
            text@ == registers_text(self@, hex),
    {
        let flag_n = self.ac >> 7;
        let flag_z = flag_to_byte(self.ac == 0);
        let mut out: Vec<u8> = Vec::new();
        push_register(&mut out, "ac", self.ac, hex);
        push_register(&mut out, "pc", self.pc, hex);
        push_register(&mut out, "n ", flag_n, hex);
        push_register(&mut out, "z ", flag_z, hex);
        push_register(&mut out, "v ", flag_to_byte(self.overflow), true);
        push_register(&mut out, "c ", flag_to_byte(self.carry), true);
        push_register(&mut out, "b ", flag_to_byte(self.borrow), true);
        assert(out@ =~= registers_text(self@, hex));
        out
    }

    /// The cycle and access counters.
    pub fn display_stats(&self) -> (text: Vec<u8>)
        ensures
            text@ == stats_text(self.cycles as nat, self.accesses as nat),
    {
        stats_listing(self.cycles, self.accesses)
    }
}

impl Default for Machine {
    fn default() -> (m: Self)
        ensures
            m@ == initial(),
    {
        Machine::new()
    }
}

impl PartialEq for Machine {
    fn eq(&self, other: &Self) -> (r: bool) {
        self.ri == other.ri && self.pc == other.pc && self.ac == other.ac && self.overflow
            == other.overflow && self.carry == other.carry && self.borrow == other.borrow
            && self.cycling == other.cycling && self.cycles == other.cycles && self.accesses == other.accesses
            && same_bytes(&self.mem, &other.mem)
    }
}

impl vstd::std_specs::cmp::PartialEqSpecImpl for Machine {
    open spec fn obeys_eq_spec() -> bool {
        true
    }

    open spec fn eq_spec(&self, other: &Machine) -> bool {
        self@ == other@
    }
}

impl Eq for Machine {

}

/// Writing a byte through the accounted path and reading it back gives
/// the byte, and counts two accesses, unless the counter is about to stop.
pub proof fn lemma_write_then_read(s: State, addr: u8, v: u8)
    requires
        s.mem.len() == 256,
        s.accesses + 2 <= u64::MAX,
    ensures
        store(s, addr, v).mem[addr as int] == v,
        touch(store(s, addr, v)).accesses == s.accesses + 2,
{
}

/// Saving the state and loading it into any machine gives back the state.
pub proof fn lemma_state_round_trip(s: State)
    requires
        s.mem.len() == 256,
    ensures
        frame_outcome(state_file(s), STATE_HEADER@, STATE_FILE_LEN as nat) is Ok,
        state_of_file(state_file(s)) == s,
{
    let head = state_head(s);
    crate::codec::lemma_counters_and_cells(head, s.cycles, s.accesses, s.mem);
    let b = state_file(s);
    assert(b.subrange(0, 4) =~= head.subrange(0, 4));
    assert(head.subrange(0, 4) =~= STATE_HEADER@);
    assert forall|i: int| 4 <= i < 11 implies b[i] == head[i] by {
        assert(b.subrange(0, 11)[i] == b[i]);
    }
    assert(state_of_file(b) =~= s);
}

/// Saving the memory and loading it into any machine gives back the memory.
pub proof fn lemma_mem_round_trip(mem: Seq<u8>)
    requires
        mem.len() == 256,
    ensures
        frame_outcome(mem_file(mem), MEM_HEADER@, MEM_FILE_LEN as nat) is Ok,
        uncells(mem_file(mem), 4) == mem,
{
    crate::codec::lemma_cells_len(mem);
    assert(mem_file(mem).subrange(0, 4) =~= MEM_HEADER@);
    crate::codec::lemma_uncells_cells(mem, MEM_HEADER@, Seq::empty());
    assert(MEM_HEADER@ + cells(mem) + Seq::empty() =~= mem_file(mem));
}


} // verus!

verus! {

/// Whether `s` holds, from address 0, the program that subtracts by adding
/// the two's complement: `LDA 0x81; NOT; ADD 0x83; ADD 0x80; STA 0x82;
/// HLT`, with the constant 1 at 0x83.
pub open spec fn holds_sub_program(s: State) -> bool {
    &&& s.mem.len() == 256
    &&& s.mem[0] == LDA
    &&& s.mem[1] == 0x81
    &&& s.mem[2] == NOT
    &&& s.mem[3] == ADD
    &&& s.mem[4] == 0x83
    &&& s.mem[5] == ADD
    &&& s.mem[6] == 0x80
    &&& s.mem[7] == STA
    &&& s.mem[8] == 0x82
    &&& s.mem[9] == HLT
    &&& s.mem[0x83] == 1
}

/// Run from address 0 with fresh counters, the subtraction program stores
/// `mem[0x80] - mem[0x81]` modulo 256 at 0x82 and halts after exactly six
/// cycles and fourteen accesses, whatever the two operands are.
pub proof fn lemma_sub_program(s: State)
    requires
        holds_sub_program(s),
        s.pc == 0,
        s.cycles == 0,
        s.accesses == 0,
    ensures
        ({
            let f = run(started(s), 6);
            &&& f.mem[0x82] == ((s.mem[0x80] - s.mem[0x81] + 256) % 256) as u8
            &&& !f.cycling
            &&& f.cycles == 6
            &&& f.accesses == 14
            &&& f.pc == 10
        }),
        forall|j: nat| j < 6 ==> (#[trigger] run(started(s), j)).cycling,
{
    let x = s.mem[0x80];
    let y = s.mem[0x81];
    let s0 = started(s);
    let s1 = run(s0, 1);
    let s2 = run(s0, 2);
    let s3 = run(s0, 3);
    let s4 = run(s0, 4);
    let s5 = run(s0, 5);
    let s6 = run(s0, 6);
    assert(run(s0, 0) == s0);
    assert(0x20u8 & 0xF0u8 == 0x20u8 && 0x60u8 & 0xF0u8 == 0x60u8 && 0x30u8 & 0xF0u8 == 0x30u8
        && 0x10u8 & 0xF0u8 == 0x10u8 && 0xF0u8 & 0xF0u8 == 0xF0u8 && 0xF0u8 & 0xFCu8 == 0xF0u8)
        by (bit_vector);
    assert(spec_decode(LDA) == Some(Op::Lda) && spec_decode(NOT) == Some(Op::Not) && spec_decode(
        ADD,
    ) == Some(Op::Add) && spec_decode(STA) == Some(Op::Sta) && spec_decode(HLT) == Some(Op::Hlt));
    assert(s1.ac == y && s1.pc == 2 && s1.accesses == 3 && s1.cycling && s1.mem == s.mem);
    assert(s2.ac == !y && s2.pc == 3 && s2.accesses == 4 && s2.cycling && s2.mem == s.mem);
    assert(!y == 255 - y) by (bit_vector);
    assert(s3.ac == ((!y + 1) % 256) as u8 && s3.pc == 5 && s3.accesses == 7 && s3.mem == s.mem);
    assert(s4.ac == ((x - y + 256) % 256) as u8 && s4.pc == 7 && s4.accesses == 10);
    assert(s5.mem[0x82] == ((x - y + 256) % 256) as u8 && s5.pc == 9 && s5.accesses == 13);
    assert(s6.mem[0x82] == s5.mem[0x82] && !s6.cycling && s6.pc == 10 && s6.accesses == 14);
    assert forall|j: nat| j < 6 implies (#[trigger] run(s0, j)).cycling by {
        if j == 0 {
        } else if j == 1 {
        } else if j == 2 {
        } else if j == 3 {
        } else if j == 4 {
        } else {
            assert(j == 5);
        }
    }
}

} // verus!
