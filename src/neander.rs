//! The Neander machine: an accumulator, a program counter and 256 bytes of
//! memory, with eleven instructions chosen by the opcode's high nibble.
use crate::codec::{
    cells, check_frame, counters_and_cells, frame_outcome, le_bytes, le_value, push_all, push_cells, push_u64_le,
    read_cells, read_u64_le, uncells, FileKind, LoadError, HEADER_LEN,
};
use crate::listing::{
    code_listing, code_text, data_listing, data_text, push_register, register_text,
    stats_listing, stats_text, InstructionSet,
};
use crate::memory::{bump, flag_byte, flag_to_byte, next_addr, same_bytes};
use vstd::prelude::*;
use vstd::string::StringSliceAdditionalSpecFns;

verus! {

/// Opcode of NOP
pub const NOP: u8 = 0x0;

/// Opcode of STA _addr_
pub const STA: u8 = 0x10;

/// Opcode of LDA _addr_
pub const LDA: u8 = 0x20;

/// Opcode of ADD _addr_
pub const ADD: u8 = 0x30;

/// Opcode of OR _addr_
pub const OR: u8 = 0x40;

/// Opcode of AND _addr_
pub const AND: u8 = 0x50;

/// Opcode of NOT
pub const NOT: u8 = 0x60;

/// Opcode of JMP _addr_
pub const JMP: u8 = 0x80;

/// Opcode of JN _addr_
pub const JN: u8 = 0x90;

/// Opcode of JZ _addr_
pub const JZ: u8 = 0xA0;

/// Opcode of HLT
pub const HLT: u8 = 0xF0;

/// Header of a memory image file.
pub const MEM_HEADER: [u8; 4] = [0x03, 0x4E, 0x44, 0x52];

/// Header of a state snapshot file.
pub const STATE_HEADER: [u8; 4] = [0x04, 0x4E, 0x44, 0x52];

/// Length of a memory image file.
pub const MEM_FILE_LEN: usize = 516;

/// Length of a state snapshot file: header, instruction register, program
/// counter, accumulator, running flag, two counters and the memory.
pub const STATE_FILE_LEN: usize = 536;

/// What the instruction table says of an opcode.
#[derive(Debug, Clone, Copy)]
pub struct InstrInfo {
    /// Mnemonic of the instruction.
    pub mnemonic: &'static str,
    /// Whether an operand byte follows the opcode.
    pub operand: bool,
}

/// The instruction table entry of `opcode`: its high nibble picks the
/// instruction.
pub open spec fn instr_info(opcode: u8) -> Option<InstrInfo> {
    let f = opcode & 0xF0;
    if f == 0x00 {
        Some(InstrInfo { mnemonic: "NOP", operand: false })
    } else if f == 0x10 {
        Some(InstrInfo { mnemonic: "STA", operand: true })
    } else if f == 0x20 {
        Some(InstrInfo { mnemonic: "LDA", operand: true })
    } else if f == 0x30 {
        Some(InstrInfo { mnemonic: "ADD", operand: true })
    } else if f == 0x40 {
        Some(InstrInfo { mnemonic: "OR", operand: true })
    } else if f == 0x50 {
        Some(InstrInfo { mnemonic: "AND", operand: true })
    } else if f == 0x60 {
        Some(InstrInfo { mnemonic: "NOT", operand: false })
    } else if f == 0x80 {
        Some(InstrInfo { mnemonic: "JMP", operand: true })
    } else if f == 0x90 {
        Some(InstrInfo { mnemonic: "JN", operand: true })
    } else if f == 0xA0 {
        Some(InstrInfo { mnemonic: "JZ", operand: true })
    } else if f == 0xF0 {
        Some(InstrInfo { mnemonic: "HLT", operand: false })
    } else {
        None
    }
}

impl InstrInfo {
    /// Looks `opcode` up in the instruction table.
    pub fn new(opcode: u8) -> (r: Option<Self>)
        ensures
            r == instr_info(opcode),
    {
        let f = opcode & 0xF0;
        if f == 0x00 {
            Some(Self { mnemonic: "NOP", operand: false })
        } else if f == 0x10 {
            Some(Self { mnemonic: "STA", operand: true })
        } else if f == 0x20 {
            Some(Self { mnemonic: "LDA", operand: true })
        } else if f == 0x30 {
            Some(Self { mnemonic: "ADD", operand: true })
        } else if f == 0x40 {
            Some(Self { mnemonic: "OR", operand: true })
        } else if f == 0x50 {
            Some(Self { mnemonic: "AND", operand: true })
        } else if f == 0x60 {
            Some(Self { mnemonic: "NOT", operand: false })
        } else if f == 0x80 {
            Some(Self { mnemonic: "JMP", operand: true })
        } else if f == 0x90 {
            Some(Self { mnemonic: "JN", operand: true })
        } else if f == 0xA0 {
            Some(Self { mnemonic: "JZ", operand: true })
        } else if f == 0xF0 {
            Some(Self { mnemonic: "HLT", operand: false })
        } else {
            None
        }
    }
}

impl InstructionSet for InstrInfo {
    open spec fn spec_lookup(opcode: u8) -> Option<(&'static str, bool)> {
        match instr_info(opcode) {
            Some(i) => Some((i.mnemonic, i.operand)),
            None => None,
        }
    }

    fn lookup(opcode: u8) -> (r: Option<(&'static str, bool)>) {
        match InstrInfo::new(opcode) {
            Some(i) => Some((i.mnemonic, i.operand)),
            None => None,
        }
    }
}

/// A Neander machine.
#[derive(Debug, Clone)]
pub struct Machine {
    /// Instruction register: the last byte fetched.
    pub ri: u8,
    /// Program counter: address of the next byte to fetch.
    pub pc: u8,
    /// Accumulator.
    pub ac: u8,
    /// Memory.
    pub mem: [u8; 256],
    /// Whether the machine runs on; cleared by HLT.
    pub cycling: bool,
    /// Fetch-decode-execute cycles since the program counter was last set.
    pub cycles: u64,
    /// Accounted memory accesses since the program counter was last set.
    pub accesses: u64,
}

/// The mathematical state of a Neander machine.
pub struct State {
    pub ri: u8,
    pub pc: u8,
    pub ac: u8,
    pub mem: Seq<u8>,
    pub cycling: bool,
    pub cycles: u64,
    pub accesses: u64,
}

impl View for Machine {
    type V = State;

    open spec fn view(&self) -> State {
        State {
            ri: self.ri,
            pc: self.pc,
            ac: self.ac,
            mem: self.mem@,
            cycling: self.cycling,
            cycles: self.cycles,
            accesses: self.accesses,
        }
    }
}

/// A machine at rest: every register, flag, counter and memory byte zero.
pub open spec fn initial() -> State {
    State {
        ri: 0,
        pc: 0,
        ac: 0,
        mem: Seq::new(256, |i: int| 0u8),
        cycling: false,
        cycles: 0,
        accesses: 0,
    }
}

/// The state after one accounted memory access that changes nothing else.
pub open spec fn touch(s: State) -> State {
    State { accesses: bump(s.accesses), ..s }
}

/// The state after an accounted write of `v` at `addr`.
pub open spec fn store(s: State, addr: u8, v: u8) -> State {
    State { mem: s.mem.update(addr as int, v), accesses: bump(s.accesses), ..s }
}

/// The state after fetching the byte at the program counter into the
/// instruction register.
pub open spec fn fetch(s: State) -> State {
    State { ri: s.mem[s.pc as int], pc: next_addr(s.pc), accesses: bump(s.accesses), ..s }
}

/// The state after the instruction whose opcode sits in the instruction
/// register runs, fetching its operand first when it has one.  Opcodes
/// outside the table change nothing.
pub open spec fn exec_op(s: State) -> State {
    let f = s.ri & 0xF0;
    let t = fetch(s);
    let operand = t.mem[t.ri as int];
    if f == 0x10 {
        store(t, t.ri, t.ac)
    } else if f == 0x20 {
        State { ac: operand, ..touch(t) }
    } else if f == 0x30 {
        State { ac: ((t.ac + operand) % 256) as u8, ..touch(t) }
    } else if f == 0x40 {
        State { ac: t.ac | operand, ..touch(t) }
    } else if f == 0x50 {
        State { ac: t.ac & operand, ..touch(t) }
    } else if f == 0x60 {
        State { ac: !s.ac, ..s }
    } else if f == 0x80 {
        State { pc: t.ri, ..t }
    } else if f == 0x90 {
        if t.ac & 0x80 != 0 {
            State { pc: t.ri, ..t }
        } else {
            t
        }
    } else if f == 0xA0 {
        if t.ac == 0 {
            State { pc: t.ri, ..t }
        } else {
            t
        }
    } else if f == 0xF0 {
        State { cycling: false, ..s }
    } else {
        s
    }
}

/// One fetch-decode-execute cycle.
pub open spec fn step(s: State) -> State {
    exec_op(fetch(State { cycles: (s.cycles + 1) as u64, ..s }))
}

/// The state in which a continuous run starts: running set.
pub open spec fn started(s: State) -> State {
    State { cycling: true, ..s }
}

/// The state after `n` cycles.
pub open spec fn run(s: State, n: nat) -> State
    decreases n,
{
    if n == 0 {
        s
    } else {
        step(run(s, (n - 1) as nat))
    }
}

/// The bytes of a memory image of `mem`.
pub open spec fn mem_file(mem: Seq<u8>) -> Seq<u8> {
    MEM_HEADER@ + cells(mem)
}

/// The bytes of a state snapshot of `s`.
pub open spec fn state_file(s: State) -> Seq<u8> {
    counters_and_cells(
        STATE_HEADER@ + seq![s.ri, s.pc, s.ac, flag_byte(s.cycling)],
        s.cycles,
        s.accesses,
        s.mem,
    )
}

/// The state that a well-framed snapshot `b` describes.
pub open spec fn state_of_file(b: Seq<u8>) -> State {
    State {
        ri: b[4],
        pc: b[5],
        ac: b[6],
        cycling: b[7] != 0,
        cycles: le_value(b, 8),
        accesses: le_value(b, 16),
        mem: uncells(b, 24),
    }
}

/// The register display: accumulator, program counter, and the N and Z
/// flags that the accumulator implies.
pub open spec fn registers_text(s: State, hex: bool) -> Seq<u8> {
    register_text("ac".spec_bytes(), s.ac, hex) + register_text("pc".spec_bytes(), s.pc, hex)
        + register_text("n ".spec_bytes(), s.ac >> 7, hex) + register_text(
        "z ".spec_bytes(),
        if s.ac == 0 {
            1u8
        } else {
            0u8
        },
        hex,
    )
}

impl Machine {
    /// A machine with every register, flag, counter and memory byte zero.
    pub fn new() -> (m: Self)
        ensures
            m@ == initial(),
    {
        let m = Machine {
            ri: 0,
            pc: 0,
            ac: 0,
            mem: [0u8; 256],
            cycling: false,
            cycles: 0,
            accesses: 0,
        };
        assert(m.mem@ =~= initial().mem);
        m
    }

    /// Reads the byte at `addr`, counting one access.
    pub fn read(&mut self, addr: u8) -> (v: u8)
        ensures
            v == old(self).mem@[addr as int],
            final(self)@ == touch(old(self)@),
    {
        self.accesses = self.accesses.saturating_add(1);
        self.mem[addr as usize]
    }

    /// Writes `data` at `addr`, counting one access.
    pub fn write(&mut self, addr: u8, data: u8)
        ensures
            final(self)@ == store(old(self)@, addr, data),
    {
        self.accesses = self.accesses.saturating_add(1);
        self.mem[addr as usize] = data;
    }

    /// Sets the program counter and starts the counters afresh.
    pub fn set_pc(&mut self, data: u8)
        ensures
            final(self)@ == (State { pc: data, cycles: 0, accesses: 0, ..old(self)@ }),
    {
        self.pc = data;
        self.cycles = 0;
        self.accesses = 0;
    }

    /// Writes `data` at `addr` without counting an access: for loading and
    /// patching programs.
    pub fn write_raw(&mut self, addr: u8, data: u8)
        ensures
            final(self)@ == (State { mem: old(self)@.mem.update(addr as int, data), ..old(self)@ }),
    {
        self.mem[addr as usize] = data;
    }

    /// Runs one fetch-decode-execute cycle.
    pub fn cycle(&mut self)
        requires
            old(self).cycles < u64::MAX,
        ensures
            final(self)@ == step(old(self)@),
    {
        self.cycles = self.cycles + 1;
        self.fetch();
        self.decode_exec();
    }

    /// Runs cycles until HLT clears the running flag.  A program that never
    /// halts runs until the cycle counter can count no further.
    pub fn execute(&mut self)
        ensures
            final(self).cycles >= old(self).cycles,
            final(self)@ == run(
                started(old(self)@),
                (final(self).cycles - old(self).cycles) as nat,
            ),
            forall|j: nat|
                j < final(self).cycles - old(self).cycles ==> (#[trigger] run(
                    started(old(self)@),
                    j,
                )).cycling,
            !final(self).cycling || final(self).cycles == u64::MAX,
    {
        self.cycling = true;
        let ghost start = self@;
        let ghost mut n: nat = 0;
        while self.cycling && self.cycles < u64::MAX
            invariant
                start == (started(old(self)@)),
                self@ == run(start, n),
                self.cycles == old(self).cycles + n,
                forall|j: nat| j < n ==> (#[trigger] run(start, j)).cycling,
            decreases u64::MAX - self.cycles,
        {
            proof {
                assert(run(start, n).cycling);
            }
            self.cycle();
            proof {
                n = n + 1;
            }
        }
    }

    /// Fetches the byte at the program counter into the instruction
    /// register and advances the program counter.
    pub fn fetch(&mut self)
        ensures
            final(self)@ == fetch(old(self)@),
    {
        self.ri = self.read(self.pc);
        self.pc = self.pc.wrapping_add(1);
    }

    /// Runs the instruction in the instruction register.
    pub fn decode_exec(&mut self)
        ensures
            final(self)@ == exec_op(old(self)@),
    {
        let f = self.ri & 0xF0;
        if f == 0x00 {
            self.exec_nop();
        } else if f == 0x10 {
            self.exec_sta();
        } else if f == 0x20 {
            self.exec_lda();
        } else if f == 0x30 {
            self.exec_add();
        } else if f == 0x40 {
            self.exec_or();
        } else if f == 0x50 {
            self.exec_and();
        } else if f == 0x60 {
            self.exec_not();
        } else if f == 0x80 {
            self.exec_jmp();
        } else if f == 0x90 {
            self.exec_jn();
        } else if f == 0xA0 {
            self.exec_jz();
        } else if f == 0xF0 {
            self.exec_hlt();
        }
    }

    fn exec_nop(&mut self)
        ensures
            *final(self) == *old(self),
    {
    }

    fn exec_sta(&mut self)
        ensures
            final(self)@ == store(fetch(old(self)@), fetch(old(self)@).ri, old(self).ac),
    {
        self.fetch();
        self.write(self.ri, self.ac);
    }

    fn exec_lda(&mut self)
        ensures
            final(self)@ == (State {
                ac: fetch(old(self)@).mem[fetch(old(self)@).ri as int],
                ..touch(fetch(old(self)@))
            }),
    {
        self.fetch();
        self.ac = self.read(self.ri);
    }

    fn exec_add(&mut self)
        ensures
            final(self)@ == (State {
                ac: ((old(self).ac + fetch(old(self)@).mem[fetch(old(self)@).ri as int]) % 256) as u8,
                ..touch(fetch(old(self)@))
            }),
    {
        self.fetch();
        let operand = self.read(self.ri);
        self.ac = self.ac.wrapping_add(operand);
    }

    fn exec_or(&mut self)
        ensures
            final(self)@ == (State {
                ac: old(self).ac | fetch(old(self)@).mem[fetch(old(self)@).ri as int],
                ..touch(fetch(old(self)@))
            }),
    {
        self.fetch();
        let operand = self.read(self.ri);
        self.ac = self.ac | operand;
    }

    fn exec_and(&mut self)
        ensures
            final(self)@ == (State {
                ac: old(self).ac & fetch(old(self)@).mem[fetch(old(self)@).ri as int],
                ..touch(fetch(old(self)@))
            }),
    {
        self.fetch();
        let operand = self.read(self.ri);
        self.ac = self.ac & operand;
    }

    fn exec_not(&mut self)
        ensures
            final(self)@ == (State { ac: !old(self).ac, ..old(self)@ }),
    {
        self.ac = !self.ac;
    }

    fn exec_jmp(&mut self)
        ensures
            final(self)@ == (State { pc: fetch(old(self)@).ri, ..fetch(old(self)@) }),
    {
        self.fetch();
        self.pc = self.ri;
    }

    fn exec_jn(&mut self)
        ensures
            final(self)@ == if old(self).ac & 0x80 != 0 {
                State { pc: fetch(old(self)@).ri, ..fetch(old(self)@) }
            } else {
                fetch(old(self)@)
            },
    {
        self.fetch();
        if self.ac & 0x80 != 0 {
            self.pc = self.ri;
        }
    }

    fn exec_jz(&mut self)
        ensures
            final(self)@ == if old(self).ac == 0 {
                State { pc: fetch(old(self)@).ri, ..fetch(old(self)@) }
            } else {
                fetch(old(self)@)
            },
    {
        self.fetch();
        if self.ac == 0 {
            self.pc = self.ri;
        }
    }

    fn exec_hlt(&mut self)
        ensures
            final(self)@ == (State { cycling: false, ..old(self)@ }),
    {
        self.cycling = false;
    }

    /// Encodes the memory as a memory image file.
    pub fn save_mem(&self) -> (bytes: Vec<u8>)
        ensures
            bytes@ == mem_file(self.mem@),
    {
        let mut out: Vec<u8> = Vec::new();
        push_all(&mut out, &MEM_HEADER);
        push_cells(&mut out, &self.mem);
        out
    }

    /// Loads the memory from a memory image file.  On an error nothing
    /// changes.
    pub fn load_mem(&mut self, input: &[u8]) -> (r: Result<(), LoadError>)
        ensures
            r == frame_outcome(input@, MEM_HEADER@, MEM_FILE_LEN as nat),
            r is Ok ==> final(self)@ == (State { mem: uncells(input@, 4), ..old(self)@ }),
            r is Err ==> *final(self) == *old(self),
    {
        match check_frame(input, &MEM_HEADER, MEM_FILE_LEN) {
            Ok(()) => {},
            Err(e) => {
                return Err(e);
            },
        }
        self.mem = read_cells(input, HEADER_LEN);
        Ok(())
    }

    /// Encodes the whole machine state as a state snapshot file.
    pub fn save_state(&self) -> (bytes: Vec<u8>)
        ensures
            bytes@ == state_file(self@),
    {
        let mut out: Vec<u8> = Vec::new();
        push_all(&mut out, &STATE_HEADER);
        out.push(self.ri);
        out.push(self.pc);
        out.push(self.ac);
        out.push(flag_to_byte(self.cycling));
        push_u64_le(&mut out, self.cycles);
        push_u64_le(&mut out, self.accesses);
        push_cells(&mut out, &self.mem);
        assert(out@ =~= state_file(self@));
        out
    }

    /// Loads the whole machine state from a state snapshot file.  On an
    /// error nothing changes.
    pub fn load_state(&mut self, input: &[u8]) -> (r: Result<(), LoadError>)
        ensures
            r == frame_outcome(input@, STATE_HEADER@, STATE_FILE_LEN as nat),
            r is Ok ==> final(self)@ == state_of_file(input@),
            r is Err ==> *final(self) == *old(self),
    {
        match check_frame(input, &STATE_HEADER, STATE_FILE_LEN) {
            Ok(()) => {},
            Err(e) => {
                return Err(e);
            },
        }
        self.ri = input[4];
        self.pc = input[5];
        self.ac = input[6];
        self.cycling = input[7] != 0;
        self.cycles = read_u64_le(input, 8);
        self.accesses = read_u64_le(input, 16);
        self.mem = read_cells(input, 24);
        Ok(())
    }

    /// Encodes the machine as a file of the given kind: a memory image or a
    /// state snapshot.
    pub fn save_as(&self, kind: FileKind) -> (bytes: Vec<u8>)
        ensures
            bytes@ == match kind {
                FileKind::Mem => mem_file(self.mem@),
                FileKind::State => state_file(self@),
            },
    {
        match kind {
            FileKind::Mem => self.save_mem(),
            FileKind::State => self.save_state(),
        }
    }

    /// Loads a file of the given kind: a memory image or a state snapshot.
    /// On an error nothing changes.
    pub fn load_as(&mut self, kind: FileKind, input: &[u8]) -> (r: Result<(), LoadError>)
        ensures
            kind == FileKind::Mem ==> r == frame_outcome(input@, MEM_HEADER@, MEM_FILE_LEN as nat),
            kind == FileKind::State ==> r == frame_outcome(
                input@,
                STATE_HEADER@,
                STATE_FILE_LEN as nat,
            ),
            r is Ok && kind == FileKind::Mem ==> final(self)@ == (State {
                mem: uncells(input@, 4),
                ..old(self)@
            }),
            r is Ok && kind == FileKind::State ==> final(self)@ == state_of_file(input@),
            r is Err ==> *final(self) == *old(self),
    {
        match kind {
            FileKind::Mem => self.load_mem(input),
            FileKind::State => self.load_state(input),
        }
    }

    /// Memory dump of the addresses in `addrs`, in that order.  Reads
    /// bypass the access counter.
    pub fn display_mem_data(&self, addrs: &[u8], hex: bool) -> (text: Vec<u8>)
        ensures
            text@ == data_text(self.mem@, addrs@, hex),
    {
        data_listing(&self.mem, addrs, hex)
    }

    /// Disassembly listing of the addresses in `addrs`, in that order.
    /// Reads bypass the access counter.
    pub fn display_mem_opcodes(&self, addrs: &[u8], hex: bool) -> (text: Vec<u8>)
        ensures
            text@ == code_text::<InstrInfo>(self.mem@, addrs@, hex, false),
    {
        code_listing::<InstrInfo>(&self.mem, addrs, hex)
    }

    /// The registers and the flags that the accumulator implies.
    pub fn display_registers(&self, hex: bool) -> (text: Vec<u8>)
        ensures
            text@ == registers_text(self@, hex),
    {
        let flag_n = self.ac >> 7;
        let flag_z: u8 = if self.ac == 0 {
            1
        } else {
            0
        };
        let mut out: Vec<u8> = Vec::new();
        push_register(&mut out, "ac", self.ac, hex);
        push_register(&mut out, "pc", self.pc, hex);
        push_register(&mut out, "n ", flag_n, hex);
        push_register(&mut out, "z ", flag_z, hex);
        assert(out@ =~= registers_text(self@, hex));
        out
    }

    /// The cycle and access counters.
    pub fn display_stats(&self) -> (text: Vec<u8>)
        ensures
            text@ == stats_text(self.cycles as nat, self.accesses as nat),
    {
        stats_listing(self.cycles, self.accesses)
    }
}

impl Default for Machine {
    fn default() -> (m: Self)
        ensures
            m@ == initial(),
    {
        Machine::new()
    }
}

impl PartialEq for Machine {
    fn eq(&self, other: &Self) -> (r: bool) {
        self.ri == other.ri && self.pc == other.pc && self.ac == other.ac && self.cycling
            == other.cycling && self.cycles == other.cycles && self.accesses == other.accesses
            && same_bytes(&self.mem, &other.mem)
    }
}

impl vstd::std_specs::cmp::PartialEqSpecImpl for Machine {
    open spec fn obeys_eq_spec() -> bool {
        true
    }

    open spec fn eq_spec(&self, other: &Machine) -> bool {
        self@ == other@
    }
}

impl Eq for Machine {

}

/// Writing a byte through the accounted path and reading it back gives
/// the byte, and counts two accesses, unless the counter is about to stop.
pub proof fn lemma_write_then_read(s: State, addr: u8, v: u8)
    requires
        s.mem.len() == 256,
        s.accesses + 2 <= u64::MAX,
    ensures
        store(s, addr, v).mem[addr as int] == v,
        touch(store(s, addr, v)).accesses == s.accesses + 2,
{
}

/// Saving the state and loading it into any machine gives back the state.
pub proof fn lemma_state_round_trip(s: State)
    requires
        s.mem.len() == 256,
    ensures
        frame_outcome(state_file(s), STATE_HEADER@, STATE_FILE_LEN as nat) is Ok,
        state_of_file(state_file(s)) == s,
{
    let head = STATE_HEADER@ + seq![s.ri, s.pc, s.ac, flag_byte(s.cycling)];
    crate::codec::lemma_counters_and_cells(head, s.cycles, s.accesses, s.mem);
    let b = state_file(s);
    assert(b.subrange(0, 4) =~= head.subrange(0, 4));
    assert(head.subrange(0, 4) =~= STATE_HEADER@);
    assert(b[4] == head[4] && b[5] == head[5] && b[6] == head[6] && b[7] == head[7]) by {
        assert(b.subrange(0, 8)[4] == b[4]);
        assert(b.subrange(0, 8)[5] == b[5]);
        assert(b.subrange(0, 8)[6] == b[6]);
        assert(b.subrange(0, 8)[7] == b[7]);
    }
    assert(state_of_file(b) =~= s);
}

/// Saving the memory and loading it into any machine gives back the memory.
pub proof fn lemma_mem_round_trip(mem: Seq<u8>)
    requires
        mem.len() == 256,
    ensures
        frame_outcome(mem_file(mem), MEM_HEADER@, MEM_FILE_LEN as nat) is Ok,
        uncells(mem_file(mem), 4) == mem,
{
    crate::codec::lemma_cells_len(mem);
    assert(mem_file(mem).subrange(0, 4) =~= MEM_HEADER@);
    crate::codec::lemma_uncells_cells(mem, MEM_HEADER@, Seq::empty());
    assert(MEM_HEADER@ + cells(mem) + Seq::empty() =~= mem_file(mem));
}


} // verus!

verus! {

/// Whether `s` holds, from address 0, the program that subtracts by adding
/// the two's complement: `LDA 0x81; NOT; ADD 0x83; ADD 0x80; STA 0x82;
/// HLT`, with the constant 1 at 0x83.
pub open spec fn holds_sub_program(s: State) -> bool {
    &&& s.mem.len() == 256
    &&& s.mem[0] == LDA
    &&& s.mem[1] == 0x81
    &&& s.mem[2] == NOT
    &&& s.mem[3] == ADD
    &&& s.mem[4] == 0x83
    &&& s.mem[5] == ADD
    &&& s.mem[6] == 0x80
    &&& s.mem[7] == STA
    &&& s.mem[8] == 0x82
    &&& s.mem[9] == HLT
    &&& s.mem[0x83] == 1
}

/// Run from address 0 with fresh counters, the subtraction program stores
/// `mem[0x80] - mem[0x81]` modulo 256 at 0x82 and halts after exactly six
/// cycles and fourteen accesses, whatever the two operands are.
pub proof fn lemma_sub_program(s: State)
    requires
        holds_sub_program(s),
        s.pc == 0,
        s.cycles == 0,
        s.accesses == 0,
    ensures
        ({
            let f = run(started(s), 6);
            &&& f.mem[0x82] == ((s.mem[0x80] - s.mem[0x81] + 256) % 256) as u8
            &&& !f.cycling
            &&& f.cycles == 6
            &&& f.accesses == 14
            &&& f.pc == 10
        }),
        forall|j: nat| j < 6 ==> (#[trigger] run(started(s), j)).cycling,
{
    let x = s.mem[0x80];
    let y = s.mem[0x81];
    let s0 = started(s);
    let s1 = run(s0, 1);
    let s2 = run(s0, 2);
    let s3 = run(s0, 3);
    let s4 = run(s0, 4);
    let s5 = run(s0, 5);
    let s6 = run(s0, 6);
    assert(run(s0, 0) == s0);
    assert(0x20u8 & 0xF0u8 == 0x20u8 && 0x60u8 & 0xF0u8 == 0x60u8 && 0x30u8 & 0xF0u8 == 0x30u8
        && 0x10u8 & 0xF0u8 == 0x10u8 && 0xF0u8 & 0xF0u8 == 0xF0u8) by (bit_vector);
    assert(s1.ac == y && s1.pc == 2 && s1.accesses == 3 && s1.cycling && s1.mem == s.mem);
    assert(s2.ac == !y && s2.pc == 3 && s2.accesses == 4 && s2.cycling && s2.mem == s.mem);
    assert(!y == 255 - y) by (bit_vector);
    assert(s3.ac == ((!y + 1) % 256) as u8 && s3.pc == 5 && s3.accesses == 7 && s3.mem == s.mem);
    assert(s4.ac == ((x - y + 256) % 256) as u8 && s4.pc == 7 && s4.accesses == 10);
    assert(s5.mem[0x82] == ((x - y + 256) % 256) as u8 && s5.pc == 9 && s5.accesses == 13);
    assert(s6.mem[0x82] == s5.mem[0x82] && !s6.cycling && s6.pc == 10 && s6.accesses == 14);
    assert forall|j: nat| j < 6 implies (#[trigger] run(s0, j)).cycling by {
        if j == 0 {
        } else if j == 1 {
        } else if j == 2 {
        } else if j == 3 {
        } else if j == 4 {
        } else {
            assert(j == 5);
        }
    }
}

} // verus!
