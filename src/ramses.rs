//! The Ramses machine: three registers (A, B and the index register X),
//! the negative, zero and carry flags, and four addressing modes.  The
//! opcode's high nibble picks the instruction, bits 2 and 3 the register
//! and bits 0 and 1 the addressing mode.
use crate::codec::{
    cells, check_frame, counters_and_cells, frame_outcome, le_bytes, le_value, push_all, push_cells, push_u64_le,
    read_cells, read_u64_le, uncells, FileKind, LoadError, HEADER_LEN,
};
use crate::listing::{
    code_listing, code_text, data_listing, data_text, push_register, register_text,
    stats_listing, stats_text, InstructionSet,
};
use crate::memory::{bump, flag_byte, flag_to_byte, next_addr, same_bytes};
use vstd::prelude::*;
use vstd::string::StringSliceAdditionalSpecFns;

verus! {

/// Opcode of NOP
pub const NOP: u8 = 0x0;

/// Opcode of STR _reg_, _am_
pub const STR: u8 = 0x10;

/// Opcode of LDR _reg_, _am_
pub const LDR: u8 = 0x20;

/// Opcode of ADD _reg_, _am_
pub const ADD: u8 = 0x30;

/// Opcode of OR _reg_, _am_
pub const OR: u8 = 0x40;

/// Opcode of AND _reg_, _am_
pub const AND: u8 = 0x50;

/// Opcode of NOT _reg_
pub const NOT: u8 = 0x60;

/// Opcode of SUB _reg_, _am_
pub const SUB: u8 = 0x70;

/// Opcode of JMP _am_
pub const JMP: u8 = 0x80;

/// Opcode of JN _am_
pub const JN: u8 = 0x90;

/// Opcode of JZ _am_
pub const JZ: u8 = 0xA0;

/// Opcode of JC _am_
pub const JC: u8 = 0xB0;

/// Opcode of JSR _am_
pub const JSR: u8 = 0xC0;

/// Opcode of NEG _reg_
pub const NEG: u8 = 0xD0;

/// Opcode of SHR _reg_
pub const SHR: u8 = 0xE0;

/// Opcode of HLT
pub const HLT: u8 = 0xF0;

/// Register field selecting A.
pub const REG_A: u8 = 0x0;

/// Register field selecting B.
pub const REG_B: u8 = 0x1;

/// Register field selecting X.
pub const REG_X: u8 = 0x2;

/// Mode field for direct addressing.
pub const MODE_DIRECT: u8 = 0x0;

/// Mode field for indirect addressing.
pub const MODE_INDIRECT: u8 = 0x1;

/// Mode field for immediate addressing.
pub const MODE_IMMEDIATE: u8 = 0x2;

/// Mode field for indexed addressing.
pub const MODE_INDEXED: u8 = 0x3;

/// Header of a memory image file.
pub const MEM_HEADER: [u8; 4] = [0x03, 0x52, 0x4D, 0x53];

/// Header of a state snapshot file.
pub const STATE_HEADER: [u8; 4] = [0x04, 0x52, 0x4D, 0x53];

/// Length of a memory image file.
pub const MEM_FILE_LEN: usize = 516;

/// Length of a state snapshot file: header, instruction register, program
/// counter, register A, the negative, zero, carry and running flags, two
/// counters and the memory.
pub const STATE_FILE_LEN: usize = 539;

/// A Ramses instruction.
#[derive(Debug, Clone, Copy, PartialEq, Eq)]
pub enum Op {
    Nop,
    Str,
    Ldr,
    Add,
    Or,
    And,
    Not,
    Sub,
    Jmp,
    Jn,
    Jz,
    Jc,
    Jsr,
    Neg,
    Shr,
    Hlt,
}

/// The instruction that `opcode` names: its high nibble picks it, and
/// every nibble names one.
pub open spec fn spec_decode(opcode: u8) -> Op {
    let hi = opcode & 0xF0;
    if hi == 0x00 {
        Op::Nop
    } else if hi == 0x10 {
        Op::Str
    } else if hi == 0x20 {
        Op::Ldr
    } else if hi == 0x30 {
        Op::Add
    } else if hi == 0x40 {
        Op::Or
    } else if hi == 0x50 {
        Op::And
    } else if hi == 0x60 {
        Op::Not
    } else if hi == 0x70 {
        Op::Sub
    } else if hi == 0x80 {
        Op::Jmp
    } else if hi == 0x90 {
        Op::Jn
    } else if hi == 0xA0 {
        Op::Jz
    } else if hi == 0xB0 {
        Op::Jc
    } else if hi == 0xC0 {
        Op::Jsr
    } else if hi == 0xD0 {
        Op::Neg
    } else if hi == 0xE0 {
        Op::Shr
    } else {
        Op::Hlt
    }
}

/// Decodes `opcode`.
pub fn decode(opcode: u8) -> (r: Op)
    ensures
        r == spec_decode(opcode),
{
    let hi = opcode & 0xF0;
    if hi == 0x00 {
        Op::Nop
    } else if hi == 0x10 {
        Op::Str
    } else if hi == 0x20 {
        Op::Ldr
    } else if hi == 0x30 {
        Op::Add
    } else if hi == 0x40 {
        Op::Or
    } else if hi == 0x50 {
        Op::And
    } else if hi == 0x60 {
        Op::Not
    } else if hi == 0x70 {
        Op::Sub
    } else if hi == 0x80 {
        Op::Jmp
    } else if hi == 0x90 {
        Op::Jn
    } else if hi == 0xA0 {
        Op::Jz
    } else if hi == 0xB0 {
        Op::Jc
    } else if hi == 0xC0 {
        Op::Jsr
    } else if hi == 0xD0 {
        Op::Neg
    } else if hi == 0xE0 {
        Op::Shr
    } else {
        Op::Hlt
    }
}

/// Mnemonic of an instruction.
pub open spec fn spec_mnemonic(op: Op) -> &'static str {
    match op {
        Op::Nop => "NOP",
        Op::Str => "STR",
        Op::Ldr => "LDR",
        Op::Add => "ADD",
        Op::Or => "OR",
        Op::And => "AND",
        Op::Not => "NOT",
        Op::Sub => "SUB",
        Op::Jmp => "JMP",
        Op::Jn => "JN",
        Op::Jz => "JZ",
        Op::Jc => "JC",
        Op::Jsr => "JSR",
        Op::Neg => "NEG",
        Op::Shr => "SHR",
        Op::Hlt => "HLT",
    }
}

/// Whether the instruction names a register.
pub open spec fn spec_has_register(op: Op) -> bool {
    match op {
        Op::Nop => false,
        Op::Str => true,
        Op::Ldr => true,
        Op::Add => true,
        Op::Or => true,
        Op::And => true,
        Op::Not => true,
        Op::Sub => true,
        Op::Jmp => false,
        Op::Jn => false,
        Op::Jz => false,
        Op::Jc => false,
        Op::Jsr => false,
        Op::Neg => true,
        Op::Shr => true,
        Op::Hlt => false,
    }
}

/// Whether an operand byte follows the instruction's opcode in a listing.
pub open spec fn spec_has_operand(op: Op) -> bool {
    match op {
        Op::Nop => false,
        Op::Str => true,
        Op::Ldr => true,
        Op::Add => true,
        Op::Or => true,
        Op::And => true,
        Op::Not => false,
        Op::Sub => true,
        Op::Jmp => true,
        Op::Jn => true,
        Op::Jz => true,
        Op::Jc => true,
        Op::Jsr => true,
        Op::Neg => false,
        Op::Shr => false,
        Op::Hlt => false,
    }
}

impl Op {
    /// Mnemonic of the instruction.
    pub fn mnemonic(self) -> (r: &'static str)
        ensures
            r == spec_mnemonic(self),
    {
        match self {
            Op::Nop => "NOP",
            Op::Str => "STR",
            Op::Ldr => "LDR",
            Op::Add => "ADD",
            Op::Or => "OR",
            Op::And => "AND",
            Op::Not => "NOT",
            Op::Sub => "SUB",
            Op::Jmp => "JMP",
            Op::Jn => "JN",
            Op::Jz => "JZ",
            Op::Jc => "JC",
            Op::Jsr => "JSR",
            Op::Neg => "NEG",
            Op::Shr => "SHR",
            Op::Hlt => "HLT",
        }
    }

    /// Whether the instruction names a register.
    pub fn has_register(self) -> (r: bool)
        ensures
            r == spec_has_register(self),
    {
        match self {
            Op::Nop => false,
            Op::Str => true,
            Op::Ldr => true,
            Op::Add => true,
            Op::Or => true,
            Op::And => true,
            Op::Not => true,
            Op::Sub => true,
            Op::Jmp => false,
            Op::Jn => false,
            Op::Jz => false,
            Op::Jc => false,
            Op::Jsr => false,
            Op::Neg => true,
            Op::Shr => true,
            Op::Hlt => false,
        }
    }

    /// Whether an operand byte follows the instruction's opcode in a listing.
    pub fn has_operand(self) -> (r: bool)
        ensures
            r == spec_has_operand(self),
    {
        match self {
            Op::Nop => false,
            Op::Str => true,
            Op::Ldr => true,
            Op::Add => true,
            Op::Or => true,
            Op::And => true,
            Op::Not => false,
            Op::Sub => true,
            Op::Jmp => true,
            Op::Jn => true,
            Op::Jz => true,
            Op::Jc => true,
            Op::Jsr => true,
            Op::Neg => false,
            Op::Shr => false,
            Op::Hlt => false,
        }
    }
}

/// What the instruction table says of an opcode.
#[derive(Debug, Clone, Copy)]
pub struct InstrInfo {
    /// Mnemonic of the instruction.
    pub mnemonic: &'static str,
    /// Whether the instruction names a register.
    pub register: bool,
    /// Whether an operand byte follows the opcode.
    pub operand: bool,
}

/// The instruction table entry of `opcode`.
pub open spec fn instr_info(opcode: u8) -> Option<InstrInfo> {
    let op = spec_decode(opcode);
    Some(
        InstrInfo {
            mnemonic: spec_mnemonic(op),
            register: spec_has_register(op),
            operand: spec_has_operand(op),
        },
    )
}

impl InstrInfo {
    /// Looks `opcode` up in the instruction table.
    pub fn new(opcode: u8) -> (r: Option<Self>)
        ensures
            r == instr_info(opcode),
    {
        let op = decode(opcode);
        Some(Self { mnemonic: op.mnemonic(), register: op.has_register(), operand: op.has_operand() })
    }
}

impl InstructionSet for InstrInfo {
    open spec fn spec_lookup(opcode: u8) -> Option<(&'static str, bool)> {
        match instr_info(opcode) {
            Some(i) => Some((i.mnemonic, i.operand)),
            None => None,
        }
    }

    fn lookup(opcode: u8) -> (r: Option<(&'static str, bool)>) {
        match InstrInfo::new(opcode) {
            Some(i) => Some((i.mnemonic, i.operand)),
            None => None,
        }
    }
}

/// An addressing mode: how the operand byte becomes the byte an
/// instruction works on, or the address it stores to or jumps to.
#[derive(Debug, Clone, Copy, PartialEq, Eq)]
pub enum Mode {
    /// The operand is the address.
    Direct,
    /// The operand is the address of a byte that holds the address.
    Indirect,
    /// The operand is the value itself.
    Immediate,
    /// The operand plus register X, wrapping, is the address.
    Indexed,
}

/// The addressing mode in the two low bits of `bits`.
pub open spec fn spec_mode(bits: u8) -> Mode {
    let m = bits & 3;
    if m == 0 {
        Mode::Direct
    } else if m == 1 {
        Mode::Indirect
    } else if m == 2 {
        Mode::Immediate
    } else {
        Mode::Indexed
    }
}

impl Mode {
    /// The addressing mode in the two low bits of `bits`.
    pub fn from_bits(bits: u8) -> (r: Mode)
        ensures
            r == spec_mode(bits),
    {
        let m = bits & 3;
        if m == 0 {
            Mode::Direct
        } else if m == 1 {
            Mode::Indirect
        } else if m == 2 {
            Mode::Immediate
        } else {
            Mode::Indexed
        }
    }
}

/// A Ramses machine.
#[derive(Debug, Clone)]
pub struct Machine {
    /// Instruction register: the last byte fetched.
    pub ri: u8,
    /// Program counter: address of the next byte to fetch.
    pub pc: u8,
    /// Register field of the instruction being run (0 to 3; 3 names no
    /// register).
    pub rr: u8,
    /// Addressing mode of the instruction being run.
    pub rm: Mode,
    /// Register A.
    pub ra: u8,
    /// Register B.
    pub rb: u8,
    /// Index register X.
    pub rx: u8,
    /// Memory.
    pub mem: [u8; 256],
    /// Whether the last register accessed was negative.
    pub negative: bool,
    /// Whether the last register accessed was zero.
    pub zero: bool,
    /// Carry flag.
    pub carry: bool,
    /// Whether the machine runs on; cleared by HLT.
    pub cycling: bool,
    /// Fetch-decode-execute cycles since the program counter was last set.
    pub cycles: u64,
    /// Accounted memory accesses since the program counter was last set.
    pub accesses: u64,
}

/// The mathematical state of a Ramses machine.
pub struct State {
    pub ri: u8,
    pub pc: u8,
    pub rr: u8,
    pub rm: Mode,
    pub ra: u8,
    pub rb: u8,
    pub rx: u8,
    pub mem: Seq<u8>,
    pub negative: bool,
    pub zero: bool,
    pub carry: bool,
    pub cycling: bool,
    pub cycles: u64,
    pub accesses: u64,
}

impl View for Machine {
    type V = State;

    open spec fn view(&self) -> State {
        State {
            ri: self.ri,
            pc: self.pc,
            rr: self.rr,
            rm: self.rm,
            ra: self.ra,
            rb: self.rb,
            rx: self.rx,
            mem: self.mem@,
            negative: self.negative,
            zero: self.zero,
            carry: self.carry,
            cycling: self.cycling,
            cycles: self.cycles,
            accesses: self.accesses,
        }
    }
}

/// A machine at rest: every register, flag, counter and memory byte zero.
pub open spec fn initial() -> State {
    State {
        ri: 0,
        pc: 0,
        rr: 0,
        rm: Mode::Direct,
        ra: 0,
        rb: 0,
        rx: 0,
        mem: Seq::new(256, |i: int| 0u8),
        negative: false,
        zero: false,
        carry: false,
        cycling: false,
        cycles: 0,
        accesses: 0,
    }
}

/// The state after one accounted memory access that changes nothing else.
pub open spec fn touch(s: State) -> State {
    State { accesses: bump(s.accesses), ..s }
}

/// The state after an accounted write of `v` at `addr`.
pub open spec fn store(s: State, addr: u8, v: u8) -> State {
    State { mem: s.mem.update(addr as int, v), accesses: bump(s.accesses), ..s }
}

/// The state after fetching the byte at the program counter into the
/// instruction register.
pub open spec fn fetch(s: State) -> State {
    State { ri: s.mem[s.pc as int], pc: next_addr(s.pc), accesses: bump(s.accesses), ..s }
}

/// The negative and zero flags set from `b`.
pub open spec fn flagged(s: State, b: u8) -> State {
    State { zero: b == 0, negative: b & 0x80 != 0, ..s }
}

/// The value of the selected register; 0 when the field names none.
pub open spec fn reg_value(s: State) -> u8 {
    if s.rr == 0 {
        s.ra
    } else if s.rr == 1 {
        s.rb
    } else if s.rr == 2 {
        s.rx
    } else {
        0
    }
}

/// The state after reading the selected register: reading sets the
/// negative and zero flags from the value, unless the field names none.
pub open spec fn reg_read(s: State) -> State {
    if s.rr <= 2 {
        flagged(s, reg_value(s))
    } else {
        s
    }
}

/// The state after writing `v` to the selected register: the flags follow
/// `v` even when the field names no register.
pub open spec fn reg_write(s: State, v: u8) -> State {
    let t = flagged(s, v);
    if s.rr == 0 {
        State { ra: v, ..t }
    } else if s.rr == 1 {
        State { rb: v, ..t }
    } else if s.rr == 2 {
        State { rx: v, ..t }
    } else {
        t
    }
}

/// The effective address that the addressing mode makes of the operand in
/// the instruction register.  An immediate operand stands for itself; where
/// an address is needed (a store or a jump) it is used as one.
pub open spec fn resolved(s: State) -> u8 {
    match s.rm {
        Mode::Direct => s.ri,
        Mode::Indirect => s.mem[s.ri as int],
        Mode::Immediate => s.ri,
        Mode::Indexed => ((s.ri + s.rx) % 256) as u8,
    }
}

/// The state after resolving the operand: indirect addressing reads the
/// pointer through the accounted path.
pub open spec fn after_resolve(s: State) -> State {
    match s.rm {
        Mode::Indirect => touch(s),
        _ => s,
    }
}

/// The byte that an instruction reads through its operand in state `s`
/// (operand fetched and resolved): the operand itself when immediate, else
/// the byte at the effective address.
pub open spec fn value_at(s: State, addr: u8) -> u8 {
    if s.rm == Mode::Immediate {
        s.ri
    } else {
        s.mem[addr as int]
    }
}

/// The state after reading that byte: one accounted read unless immediate.
pub open spec fn value_read(s: State) -> State {
    if s.rm == Mode::Immediate {
        s
    } else {
        touch(s)
    }
}

/// The state after fetching the operand and resolving it.
pub open spec fn operand_fetched(s: State) -> State {
    after_resolve(fetch(s))
}

/// The address that an instruction with an operand works on.
pub open spec fn target(s: State) -> u8 {
    resolved(fetch(s))
}

/// The state after STR: the selected register is stored at the target.
pub open spec fn str_result(s: State) -> State {
    let t = operand_fetched(s);
    store(reg_read(t), target(s), reg_value(t))
}

/// The state after LDR: the byte that the operand gives goes to the
/// selected register.
pub open spec fn ldr_result(s: State) -> State {
    let t = operand_fetched(s);
    reg_write(value_read(t), value_at(t, target(s)))
}

/// The register that a two-operand instruction combines with its operand.
pub open spec fn left(s: State) -> u8 {
    reg_value(operand_fetched(s))
}

/// The byte that the operand gives.
pub open spec fn right(s: State) -> u8 {
    value_at(operand_fetched(s), target(s))
}

/// The state after reading the register and the byte that the operand
/// gives.
pub open spec fn both_read(s: State) -> State {
    value_read(reg_read(operand_fetched(s)))
}

/// The state after ADD: the sum modulo 256, with the carry out.
pub open spec fn add_result(s: State) -> State {
    reg_write(
        State { carry: left(s) + right(s) > 255, ..both_read(s) },
        ((left(s) + right(s)) % 256) as u8,
    )
}

/// The state after SUB: the difference modulo 256.  The carry is set when
/// no borrow occurred.
pub open spec fn sub_result(s: State) -> State {
    reg_write(
        State { carry: left(s) >= right(s), ..both_read(s) },
        ((left(s) - right(s) + 256) % 256) as u8,
    )
}

/// The state after fetching a jump target, then jumping when `cond` holds.
pub open spec fn jump_if(s: State, cond: bool) -> State {
    if cond {
        State { pc: target(s), ..operand_fetched(s) }
    } else {
        operand_fetched(s)
    }
}

/// The state after JSR: the return address is stored at the target and
/// execution goes on at the byte after it.
pub open spec fn jsr_result(s: State) -> State {
    let t = operand_fetched(s);
    State { pc: next_addr(target(s)), ..store(t, target(s), t.pc) }
}

/// The state after NEG: the register becomes its two's complement; the
/// carry is set when it was zero.
pub open spec fn neg_result(s: State) -> State {
    let v = reg_value(s);
    reg_write(State { carry: v == 0, ..reg_read(s) }, ((!v + 1) % 256) as u8)
}

/// The state after SHR: the register moves right one bit and the bit
/// shifted out becomes the carry.  SHR has no operand byte.
pub open spec fn shr_result(s: State) -> State {
    let v = reg_value(s);
    reg_write(State { carry: v & 1 != 0, ..reg_read(s) }, v >> 1u8)
}


/// The state with the register and mode fields of the opcode in the
/// instruction register.
pub open spec fn decoded(s: State) -> State {
    State { rm: spec_mode(s.ri), rr: (s.ri >> 2u8) & 3, ..s }
}

/// The state after the instruction whose opcode sits in the instruction
/// register runs.
#[verifier::opaque]
pub open spec fn exec_op(s: State) -> State {
    let d = decoded(s);
    match spec_decode(s.ri) {
        Op::Nop => d,
        Op::Str => str_result(d),
        Op::Ldr => ldr_result(d),
        Op::Add => add_result(d),
        Op::Or => reg_write(both_read(d), left(d) | right(d)),
        Op::And => reg_write(both_read(d), left(d) & right(d)),
        Op::Not => reg_write(reg_read(d), !reg_value(d)),
        Op::Sub => sub_result(d),
        Op::Jmp => jump_if(d, true),
        Op::Jn => jump_if(d, d.negative),
        Op::Jz => jump_if(d, d.zero),
        Op::Jc => jump_if(d, d.carry),
        Op::Jsr => jsr_result(d),
        Op::Neg => neg_result(d),
        Op::Shr => shr_result(d),
        Op::Hlt => State { cycling: false, ..d },
    }
}

/// One fetch-decode-execute cycle.
pub open spec fn step(s: State) -> State {
    exec_op(fetch(State { cycles: (s.cycles + 1) as u64, ..s }))
}

/// An instruction leaves the cycle counter alone.
pub proof fn lemma_exec_keeps_cycles(s: State)
    ensures
        exec_op(s).cycles == s.cycles,
{
    reveal(exec_op);
}

/// The state in which a continuous run starts: running set.
pub open spec fn started(s: State) -> State {
    State { cycling: true, ..s }
}

/// The state after `n` cycles.
pub open spec fn run(s: State, n: nat) -> State
    decreases n,
{
    if n == 0 {
        s
    } else {
        step(run(s, (n - 1) as nat))
    }
}

/// The bytes of a memory image of `mem`.
pub open spec fn mem_file(mem: Seq<u8>) -> Seq<u8> {
    MEM_HEADER@ + cells(mem)
}

/// The bytes before the counters in a state snapshot of `s`.
pub open spec fn state_head(s: State) -> Seq<u8> {
    STATE_HEADER@ + seq![
        s.ri,
        s.pc,
        s.ra,
        flag_byte(s.negative),
        flag_byte(s.zero),
        flag_byte(s.carry),
        flag_byte(s.cycling),
    ]
}

/// The bytes of a state snapshot of `s`.  Registers B and X and the
/// decoded register and mode fields are not part of a snapshot.
pub open spec fn state_file(s: State) -> Seq<u8> {
    counters_and_cells(state_head(s), s.cycles, s.accesses, s.mem)
}

/// The state after loading a well-framed snapshot `b` into `s`.
pub open spec fn state_of_file(s: State, b: Seq<u8>) -> State {
    State {
        ri: b[4],
        pc: b[5],
        ra: b[6],
        negative: b[7] != 0,
        zero: b[8] != 0,
        carry: b[9] != 0,
        cycling: b[10] != 0,
        cycles: le_value(b, 11),
        accesses: le_value(b, 19),
        mem: uncells(b, 27),
        ..s
    }
}

/// Whether two states hold the same snapshot.
pub open spec fn same_snapshot(a: State, b: State) -> bool {
    &&& a.ri == b.ri
    &&& a.pc == b.pc
    &&& a.ra == b.ra
    &&& a.negative == b.negative
    &&& a.zero == b.zero
    &&& a.carry == b.carry
    &&& a.cycling == b.cycling
    &&& a.cycles == b.cycles
    &&& a.accesses == b.accesses
    &&& a.mem == b.mem
}

/// The register display: register A, the program counter, and the N and Z
/// flags that register A implies.
pub open spec fn registers_text(s: State, hex: bool) -> Seq<u8> {
    register_text("ra".spec_bytes(), s.ra, hex) + register_text("pc".spec_bytes(), s.pc, hex)
        + register_text("n ".spec_bytes(), s.ra >> 7, hex) + register_text(
        "z ".spec_bytes(),
        flag_byte(s.ra == 0),
        hex,
    )
}

impl Machine {
    /// A machine with every register, flag, counter and memory byte zero.
    pub fn new() -> (m: Self)
        ensures
            m@ == initial(),
    {
        let m = Machine {
            ri: 0,
            pc: 0,
            rr: 0,
            rm: Mode::Direct,
            ra: 0,
            rb: 0,
            rx: 0,
            mem: [0u8; 256],
            negative: false,
            zero: false,
            carry: false,
            cycling: false,
            cycles: 0,
            accesses: 0,
        };
        assert(m.mem@ =~= initial().mem);
        m
    }

    /// Reads the byte at `addr`, counting one access.
    pub fn read(&mut self, addr: u8) -> (v: u8)
        ensures
            v == old(self).mem@[addr as int],
            final(self)@ == touch(old(self)@),
    {
        self.accesses = self.accesses.saturating_add(1);
        self.mem[addr as usize]
    }

    /// Writes `data` at `addr`, counting one access.
    pub fn write(&mut self, addr: u8, data: u8)
        ensures
            final(self)@ == store(old(self)@, addr, data),
    {
        self.accesses = self.accesses.saturating_add(1);
        self.mem[addr as usize] = data;
    }

    /// Sets the negative and zero flags from `byte`.
    pub fn update_flags(&mut self, byte: u8)
        ensures
            final(self)@ == flagged(old(self)@, byte),
    {
        self.zero = byte == 0;
        self.negative = byte & 0x80 != 0;
    }

    /// Reads the selected register, setting the negative and zero flags
    /// from it; 0 when the register field names none.
    pub fn read_register(&mut self) -> (data: u8)
        ensures
            data == reg_value(old(self)@),
            final(self)@ == reg_read(old(self)@),
    {
        let data = if self.rr == REG_A {
            self.ra
        } else if self.rr == REG_B {
            self.rb
        } else if self.rr == REG_X {
            self.rx
        } else {
            return 0;
        };
        self.update_flags(data);
        data
    }

    /// Writes the selected register, setting the negative and zero flags
    /// from `data`.
    pub fn write_register(&mut self, data: u8)
        ensures
            final(self)@ == reg_write(old(self)@, data),
    {
        self.update_flags(data);
        if self.rr == REG_A {
            self.ra = data;
        } else if self.rr == REG_B {
            self.rb = data;
        } else if self.rr == REG_X {
            self.rx = data;
        }
    }

    /// Turns the operand in the instruction register into an effective
    /// address by the addressing mode.
    fn resolve_mode(&mut self) -> (addr: u8)
        ensures
            addr == resolved(old(self)@),
            final(self)@ == after_resolve(old(self)@),
    {
        match self.rm {
            Mode::Direct => self.ri,
            Mode::Indirect => self.read(self.ri),
            Mode::Immediate => self.ri,
            Mode::Indexed => self.ri.wrapping_add(self.rx),
        }
    }

    /// Reads the byte that the resolved operand gives: the operand itself
    /// when immediate, else the byte at `addr`.
    fn read_value(&mut self, addr: u8) -> (v: u8)
        ensures
            v == value_at(old(self)@, addr),
            final(self)@ == value_read(old(self)@),
    {
        match self.rm {
            Mode::Immediate => self.ri,
            _ => self.read(addr),
        }
    }

    /// Sets the program counter and starts the counters afresh.
    pub fn set_pc(&mut self, data: u8)
        ensures
            final(self)@ == (State { pc: data, cycles: 0, accesses: 0, ..old(self)@ }),
    {
        self.pc = data;
        self.cycles = 0;
        self.accesses = 0;
    }

    /// Writes `data` at `addr` without counting an access: for loading and
    /// patching programs.
    pub fn write_raw(&mut self, addr: u8, data: u8)
        ensures
            final(self)@ == (State { mem: old(self)@.mem.update(addr as int, data), ..old(self)@ }),
    {
        self.mem[addr as usize] = data;
    }

    /// Runs one fetch-decode-execute cycle.
    pub fn cycle(&mut self)
        requires
            old(self).cycles < u64::MAX,
        ensures
            final(self)@ == step(old(self)@),
    {
        self.cycles = self.cycles + 1;
        self.fetch();
        self.decode_exec();
    }

    /// Runs cycles until HLT clears the running flag.  A program that never
    /// halts runs until the cycle counter can count no further.
    pub fn execute(&mut self)
        ensures
            final(self).cycles >= old(self).cycles,
            final(self)@ == run(started(old(self)@), (final(self).cycles - old(self).cycles) as nat),
            forall|j: nat|
                j < final(self).cycles - old(self).cycles ==> (#[trigger] run(
                    started(old(self)@),
                    j,
                )).cycling,
            !final(self).cycling || final(self).cycles == u64::MAX,
    {
        self.cycling = true;
        let ghost start = self@;
        let ghost mut n: nat = 0;
        while self.cycling && self.cycles < u64::MAX
            invariant
                start == started(old(self)@),
                self@ == run(start, n),
                self.cycles == old(self).cycles + n,
                forall|j: nat| j < n ==> (#[trigger] run(start, j)).cycling,
            decreases u64::MAX - self.cycles,
        {
            proof {
                assert(run(start, n).cycling);
                lemma_exec_keeps_cycles(fetch(State { cycles: (self.cycles + 1) as u64, ..self@ }));
            }
            self.cycle();
            proof {
                n = n + 1;
            }
        }
    }

    /// Fetches the byte at the program counter into the instruction
    /// register and advances the program counter.
    pub fn fetch(&mut self)
        ensures
            final(self)@ == fetch(old(self)@),
    {
        self.ri = self.read(self.pc);
        self.pc = self.pc.wrapping_add(1);
    }

    /// Splits the opcode in the instruction register into its register and
    /// mode fields and runs its instruction.
    pub fn decode_exec(&mut self)
        ensures
            final(self)@ == exec_op(old(self)@),
    {
        reveal(exec_op);
        self.rm = Mode::from_bits(self.ri);
        self.rr = self.ri >> 2u8 & 0x3;
        match decode(self.ri) {
            Op::Nop => self.exec_nop(),
            Op::Str => self.exec_str(),
            Op::Ldr => self.exec_ldr(),
            Op::Add => self.exec_add(),
            Op::Or => self.exec_or(),
            Op::And => self.exec_and(),
            Op::Not => self.exec_not(),
            Op::Sub => self.exec_sub(),
            Op::Jmp => self.exec_jmp(),
            Op::Jn => self.exec_jn(),
            Op::Jz => self.exec_jz(),
            Op::Jc => self.exec_jc(),
            Op::Jsr => self.exec_jsr(),
            Op::Neg => self.exec_neg(),
            Op::Shr => self.exec_shr(),
            Op::Hlt => self.exec_hlt(),
        }
    }

    fn exec_nop(&mut self)
        ensures
            *final(self) == *old(self),
    {
    }

    fn exec_str(&mut self)
        ensures
            final(self)@ == str_result(old(self)@),
    {
        self.fetch();
        let addr = self.resolve_mode();
        let data = self.read_register();
        self.write(addr, data);
    }

    fn exec_ldr(&mut self)
        ensures
            final(self)@ == ldr_result(old(self)@),
    {
        self.fetch();
        let addr = self.resolve_mode();
        let data = self.read_value(addr);
        self.write_register(data);
    }

    /// Fetches and resolves the operand, then reads the register and the
    /// byte that the operand gives.
    fn read_both(&mut self) -> (r: (u8, u8))
        ensures
            r == (left(old(self)@), right(old(self)@)),
            final(self)@ == both_read(old(self)@),
    {
        self.fetch();
        let addr = self.resolve_mode();
        let left = self.read_register();
        let right = self.read_value(addr);
        (left, right)
    }

    fn exec_add(&mut self)
        ensures
            final(self)@ == add_result(old(self)@),
    {
        let (left, right) = self.read_both();
        let sum: u16 = left as u16 + right as u16;
        self.carry = sum > 255;
        self.write_register((sum % 256) as u8);
    }

    fn exec_or(&mut self)
        ensures
            final(self)@ == reg_write(both_read(old(self)@), left(old(self)@) | right(old(self)@)),
    {
        let (left, right) = self.read_both();
        self.write_register(left | right);
    }

    fn exec_and(&mut self)
        ensures
            final(self)@ == reg_write(both_read(old(self)@), left(old(self)@) & right(old(self)@)),
    {
        let (left, right) = self.read_both();
        self.write_register(left & right);
    }

    fn exec_not(&mut self)
        ensures
            final(self)@ == reg_write(reg_read(old(self)@), !reg_value(old(self)@)),
    {
        let data = self.read_register();
        self.write_register(!data);
    }

    fn exec_sub(&mut self)
        ensures
            final(self)@ == sub_result(old(self)@),
    {
        let (left, right) = self.read_both();
        let borrow = left < right;
        self.carry = !borrow;
        self.write_register(left.wrapping_sub(right));
    }

    /// Fetches and resolves a jump target and jumps there when `cond` holds.
    fn jump_when(&mut self, cond: bool)
        ensures
            final(self)@ == jump_if(old(self)@, cond),
    {
        self.fetch();
        let addr = self.resolve_mode();
        if cond {
            self.pc = addr;
        }
    }

    fn exec_jmp(&mut self)
        ensures
            final(self)@ == jump_if(old(self)@, true),
    {
        self.jump_when(true);
    }

    fn exec_jn(&mut self)
        ensures
            final(self)@ == jump_if(old(self)@, old(self).negative),
    {
        self.jump_when(self.negative);
    }

    fn exec_jz(&mut self)
        ensures
            final(self)@ == jump_if(old(self)@, old(self).zero),
    {
        self.jump_when(self.zero);
    }

    fn exec_jc(&mut self)
        ensures
            final(self)@ == jump_if(old(self)@, old(self).carry),
    {
        self.jump_when(self.carry);
    }

    fn exec_jsr(&mut self)
        ensures
            final(self)@ == jsr_result(old(self)@),
    {
        self.fetch();
        let addr = self.resolve_mode();
        self.write(addr, self.pc);
        self.pc = addr.wrapping_add(1);
    }

    fn exec_neg(&mut self)
        ensures
            final(self)@ == neg_result(old(self)@),
    {
        let data = self.read_register();
        self.carry = data == 0;
        self.write_register((!data).wrapping_add(1));
    }

    fn exec_shr(&mut self)
        ensures
            final(self)@ == shr_result(old(self)@),
    {
        let data = self.read_register();
        self.carry = data & 1 != 0;
        self.write_register(data >> 1u8);
    }

    fn exec_hlt(&mut self)
        ensures
            final(self)@ == (State { cycling: false, ..old(self)@ }),
    {
        self.cycling = false;
    }

    /// Encodes the memory as a memory image file.
    pub fn save_mem(&self) -> (bytes: Vec<u8>)
        ensures
            bytes@ == mem_file(self.mem@),
    {
        let mut out: Vec<u8> = Vec::new();
        push_all(&mut out, &MEM_HEADER);
        push_cells(&mut out, &self.mem);
        out
    }

    /// Loads the memory from a memory image file.  On an error nothing
    /// changes.
    pub fn load_mem(&mut self, input: &[u8]) -> (r: Result<(), LoadError>)
        ensures
            r == frame_outcome(input@, MEM_HEADER@, MEM_FILE_LEN as nat),
            r is Ok ==> final(self)@ == (State { mem: uncells(input@, 4), ..old(self)@ }),
            r is Err ==> *final(self) == *old(self),
    {
        match check_frame(input, &MEM_HEADER, MEM_FILE_LEN) {
            Ok(()) => {},
            Err(e) => {
                return Err(e);
            },
        }
        self.mem = read_cells(input, HEADER_LEN);
        Ok(())
    }

    /// Encodes the whole machine state as a state snapshot file.
    pub fn save_state(&self) -> (bytes: Vec<u8>)
        ensures
            bytes@ == state_file(self@),
    {
        let mut out: Vec<u8> = Vec::new();
        push_all(&mut out, &STATE_HEADER);
        out.push(self.ri);
        out.push(self.pc);
        out.push(self.ra);
        out.push(flag_to_byte(self.negative));
        out.push(flag_to_byte(self.zero));
        out.push(flag_to_byte(self.carry));
        out.push(flag_to_byte(self.cycling));
        push_u64_le(&mut out, self.cycles);
        push_u64_le(&mut out, self.accesses);
        push_cells(&mut out, &self.mem);
        assert(out@ =~= state_file(self@));
        out
    }

    /// Loads the whole machine state from a state snapshot file.  On an
    /// error nothing changes.
    pub fn load_state(&mut self, input: &[u8]) -> (r: Result<(), LoadError>)
        ensures
            r == frame_outcome(input@, STATE_HEADER@, STATE_FILE_LEN as nat),
            r is Ok ==> final(self)@ == state_of_file(old(self)@, input@),
            r is Err ==> *final(self) == *old(self),
    {
        match check_frame(input, &STATE_HEADER, STATE_FILE_LEN) {
            Ok(()) => {},
            Err(e) => {
                return Err(e);
            },
        }
        self.ri = input[4];
        self.pc = input[5];
        self.ra = input[6];
        self.negative = input[7] != 0;
        self.zero = input[8] != 0;
        self.carry = input[9] != 0;
        self.cycling = input[10] != 0;
        self.cycles = read_u64_le(input, 11);
        self.accesses = read_u64_le(input, 19);
        self.mem = read_cells(input, 27);
        Ok(())
    }

    /// Encodes the machine as a file of the given kind: a memory image or a
    /// state snapshot.
    pub fn save_as(&self, kind: FileKind) -> (bytes: Vec<u8>)
        ensures
            bytes@ == match kind {
                FileKind::Mem => mem_file(self.mem@),
                FileKind::State => state_file(self@),
            },
    {
        match kind {
            FileKind::Mem => self.save_mem(),
            FileKind::State => self.save_state(),
        }
    }

    /// Loads a file of the given kind: a memory image or a state snapshot.
    /// On an error nothing changes.
    pub fn load_as(&mut self, kind: FileKind, input: &[u8]) -> (r: Result<(), LoadError>)
        ensures
            kind == FileKind::Mem ==> r == frame_outcome(input@, MEM_HEADER@, MEM_FILE_LEN as nat),
            kind == FileKind::State ==> r == frame_outcome(
                input@,
                STATE_HEADER@,
                STATE_FILE_LEN as nat,
            ),
            r is Ok && kind == FileKind::Mem ==> final(self)@ == (State {
                mem: uncells(input@, 4),
                ..old(self)@
            }),
            r is Ok && kind == FileKind::State ==> final(self)@ == state_of_file(old(self)@, input@),
            r is Err ==> *final(self) == *old(self),
    {
        match kind {
            FileKind::Mem => self.load_mem(input),
            FileKind::State => self.load_state(input),
        }
    }

    /// Memory dump of the addresses in `addrs`, in that order.  Reads
    /// bypass the access counter.
    pub fn display_mem_data(&self, addrs: &[u8], hex: bool) -> (text: Vec<u8>)
        ensures
            text@ == data_text(self.mem@, addrs@, hex),
    {
        data_listing(&self.mem, addrs, hex)
    }

    /// Disassembly listing of the addresses in `addrs`, in that order.
    /// Reads bypass the access counter.
    pub fn display_mem_opcodes(&self, addrs: &[u8], hex: bool) -> (text: Vec<u8>)
        ensures
            text@ == code_text::<InstrInfo>(self.mem@, addrs@, hex, false),
    {
        code_listing::<InstrInfo>(&self.mem, addrs, hex)
    }

    /// Register A, the program counter, and the flags that register A
    /// implies.
    pub fn display_registers(&self, hex: bool) -> (text: Vec<u8>)
        ensures
            text@ == registers_text(self@, hex),
    {
        let flag_n = self.ra >> 7;
        let flag_z = flag_to_byte(self.ra == 0);
        let mut out: Vec<u8> = Vec::new();
        push_register(&mut out, "ra", self.ra, hex);
        push_register(&mut out, "pc", self.pc, hex);
        push_register(&mut out, "n ", flag_n, hex);
        push_register(&mut out, "z ", flag_z, hex);
        assert(out@ =~= registers_text(self@, hex));
        out
    }

    /// The cycle and access counters.
    pub fn display_stats(&self) -> (text: Vec<u8>)
        ensures
            text@ == stats_text(self.cycles as nat, self.accesses as nat),
    {
        stats_listing(self.cycles, self.accesses)
    }
}

impl Default for Machine {
    fn default() -> (m: Self)
        ensures
            m@ == initial(),
    {
        Machine::new()
    }
}

impl PartialEq for Machine {
    fn eq(&self, other: &Self) -> (r: bool) {
        self.ri == other.ri && self.pc == other.pc && self.ra == other.ra && self.negative
            == other.negative && self.zero == other.zero && self.carry == other.carry
            && self.cycling == other.cycling && self.cycles == other.cycles && self.accesses == other.accesses
            && same_bytes(&self.mem, &other.mem)
    }
}

impl vstd::std_specs::cmp::PartialEqSpecImpl for Machine {
    open spec fn obeys_eq_spec() -> bool {
        true
    }

    open spec fn eq_spec(&self, other: &Machine) -> bool {
        same_snapshot(self@, other@)
    }
}

impl Eq for Machine {

}

/// Writing a byte through the accounted path and reading it back gives
/// the byte, and counts two accesses, unless the counter is about to stop.
pub proof fn lemma_write_then_read(s: State, addr: u8, v: u8)
    requires
        s.mem.len() == 256,
        s.accesses + 2 <= u64::MAX,
    ensures
        store(s, addr, v).mem[addr as int] == v,
        touch(store(s, addr, v)).accesses == s.accesses + 2,
{
}

/// Saving the state and loading it into any machine gives back every field
/// that a snapshot holds, and leaves the other fields of that machine.
pub proof fn lemma_state_round_trip(s: State, target: State)
    requires
        s.mem.len() == 256,
    ensures
        frame_outcome(state_file(s), STATE_HEADER@, STATE_FILE_LEN as nat) is Ok,
        same_snapshot(state_of_file(target, state_file(s)), s),
        state_of_file(target, state_file(s)) == (State {
            ri: s.ri,
            pc: s.pc,
            ra: s.ra,
            negative: s.negative,
            zero: s.zero,
            carry: s.carry,
            cycling: s.cycling,
            cycles: s.cycles,
            accesses: s.accesses,
            mem: s.mem,
            ..target
        }),
{
    let head = state_head(s);
    crate::codec::lemma_counters_and_cells(head, s.cycles, s.accesses, s.mem);
    let b = state_file(s);
    assert(b.subrange(0, 4) =~= head.subrange(0, 4));
    assert(head.subrange(0, 4) =~= STATE_HEADER@);
    assert forall|i: int| 4 <= i < 11 implies b[i] == head[i] by {
        assert(b.subrange(0, 11)[i] == b[i]);
    }

}

/// Saving the memory and loading it into any machine gives back the memory.
pub proof fn lemma_mem_round_trip(mem: Seq<u8>)
    requires
        mem.len() == 256,
    ensures
        frame_outcome(mem_file(mem), MEM_HEADER@, MEM_FILE_LEN as nat) is Ok,
        uncells(mem_file(mem), 4) == mem,
{
    crate::codec::lemma_cells_len(mem);
    assert(mem_file(mem).subrange(0, 4) =~= MEM_HEADER@);
    crate::codec::lemma_uncells_cells(mem, MEM_HEADER@, Seq::empty());
    assert(MEM_HEADER@ + cells(mem) + Seq::empty() =~= mem_file(mem));
}


} // verus!
