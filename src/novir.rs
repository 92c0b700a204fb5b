//! A compact Neander core for hosts that drive the machine themselves: it
//! runs whole programs, or a bounded number of cycles per call for hosts
//! that share their thread with other work.  Only the memory is saved.
use crate::codec::{
    cells, check_frame, frame_outcome, push_all, push_cells, read_cells, uncells, LoadError,
    HEADER_LEN,
};
use crate::memory::next_addr;
use vstd::prelude::*;

verus! {

/// Opcode of nop
pub const NOP: u8 = 0x0;

/// Opcode of lda _addr_
pub const LDA: u8 = 0x10;

/// Opcode of sta _addr_
pub const STA: u8 = 0x20;

/// Opcode of add _addr_
pub const ADD: u8 = 0x30;

/// Opcode of or _addr_
pub const OR: u8 = 0x40;

/// Opcode of and _addr_
pub const AND: u8 = 0x50;

/// Opcode of not
pub const NOT: u8 = 0x60;

/// Opcode of jmp _addr_
pub const JMP: u8 = 0x80;

/// Opcode of jn _addr_
pub const JN: u8 = 0x90;

/// Opcode of jz _addr_
pub const JZ: u8 = 0xA0;

/// Opcode of hlt
pub const HLT: u8 = 0xF0;

/// Most cycles that one call of `execute_async_round` runs.
pub const CYCLES_PER_ASYNC_CALL: usize = 100;

/// Header of a memory image file.
pub const HEADER: [u8; 4] = [0x03, 0x4E, 0x44, 0x52];

/// Length of a memory image file.
pub const FILE_LEN: usize = 516;

#[derive(Debug, Clone)]
struct Stats {
    running: bool,
    cycles: usize,
    accesses: usize,
}

/// A neander machine, with information needed for the simulator.
#[derive(Debug, Clone)]
pub struct Machine {
    /// The accumulator. The register used for implicit operands.
    pub ac: u8,
    /// Neander memory. Direct access to memory will not count for statistics.
    pub mem: [u8; 256],
    pc: u8,
    stats: Stats,
}

/// The mathematical state of the machine.
pub struct State {
    pub ac: u8,
    pub mem: Seq<u8>,
    pub pc: u8,
    pub running: bool,
    pub cycles: usize,
    pub accesses: usize,
}

impl View for Machine {
    type V = State;

    closed spec fn view(&self) -> State {
        State {
            ac: self.ac,
            mem: self.mem@,
            pc: self.pc,
            running: self.stats.running,
            cycles: self.stats.cycles,
            accesses: self.stats.accesses,
        }
    }
}

/// A machine at rest: accumulator, program counter, memory and statistics
/// all zero.
pub open spec fn initial() -> State {
    State {
        ac: 0,
        mem: Seq::new(256, |i: int| 0u8),
        pc: 0,
        running: false,
        cycles: 0,
        accesses: 0,
    }
}

/// The access counter after one more access: it stops at the largest value.
pub open spec fn bump(n: usize) -> usize {
    if n == usize::MAX {
        n
    } else {
        (n + 1) as usize
    }
}

/// The state after one accounted memory access that changes nothing else.
pub open spec fn touch(s: State) -> State {
    State { accesses: bump(s.accesses), ..s }
}

/// The state after an accounted write of `v` at `addr`.
pub open spec fn store(s: State, addr: u8, v: u8) -> State {
    State { mem: s.mem.update(addr as int, v), ..touch(s) }
}

/// The state after reading the byte at the program counter and advancing it.
pub open spec fn code_read(s: State) -> State {
    State { pc: next_addr(s.pc), ..touch(s) }
}

/// The byte at the program counter.
pub open spec fn code_byte(s: State) -> u8 {
    s.mem[s.pc as int]
}

/// The state after an instruction with an address operand read its
/// operand address and the byte there.
pub open spec fn operand_read(s: State) -> State {
    touch(code_read(s))
}

/// The byte that an instruction with an address operand works on.
pub open spec fn operand(s: State) -> u8 {
    s.mem[code_byte(s) as int]
}

/// The state after a jump instruction read its target, then jumped when
/// `cond` holds.
pub open spec fn jump_if(s: State, cond: bool) -> State {
    if cond {
        State { pc: code_byte(s), ..code_read(s) }
    } else {
        code_read(s)
    }
}

/// The state after the instruction whose opcode was just read runs.
pub open spec fn exec_op(opcode: u8, s: State) -> State {
    let f = opcode & 0xF0;
    if f == 0xF0 {
        State { running: false, ..s }
    } else if f == 0x60 {
        State { ac: !s.ac, ..s }
    } else if f == 0x10 {
        State { ac: operand(s), ..operand_read(s) }
    } else if f == 0x20 {
        store(code_read(s), code_byte(s), s.ac)
    } else if f == 0x30 {
        State { ac: ((s.ac + operand(s)) % 256) as u8, ..operand_read(s) }
    } else if f == 0x40 {
        State { ac: s.ac | operand(s), ..operand_read(s) }
    } else if f == 0x50 {
        State { ac: s.ac & operand(s), ..operand_read(s) }
    } else if f == 0x80 {
        jump_if(s, true)
    } else if f == 0x90 {
        jump_if(s, s.ac & 0x80 != 0)
    } else if f == 0xA0 {
        jump_if(s, s.ac == 0)
    } else {
        s
    }
}

/// One fetch-decode-execute cycle: running is set, the cycle counted, the
/// opcode read and its instruction run.
pub open spec fn step(s: State) -> State {
    let t = State { running: true, cycles: (s.cycles + 1) as usize, ..s };
    exec_op(code_byte(t), code_read(t))
}

/// The state after `n` cycles.
pub open spec fn run(s: State, n: nat) -> State
    decreases n,
{
    if n == 0 {
        s
    } else {
        step(run(s, (n - 1) as nat))
    }
}

/// The bytes of a memory image of `mem`.
pub open spec fn mem_file(mem: Seq<u8>) -> Seq<u8> {
    HEADER@ + cells(mem)
}

impl Machine {
    /// Creates a new zeroed machine.
    pub fn new() -> (m: Self)
        ensures
            m@ == initial(),
    {
        let m = Self {
            pc: 0,
            ac: 0,
            mem: [0u8; 256],
            stats: Stats { running: false, cycles: 0, accesses: 0 },
        };
        assert(m.mem@ =~= initial().mem);
        m
    }

    /// Resets machine statistics such as instruction cycles and memory
    /// accesses.
    pub fn reset_stats(&mut self)
        ensures
            final(self)@ == (State { cycles: 0, accesses: 0, ..old(self)@ }),
    {
        self.stats.accesses = 0;
        self.stats.cycles = 0;
    }

    /// Resets machine statistics and also sets program counter (PC) to a new
    /// given value.
    pub fn reset_with_pc(&mut self, new_pc: u8)
        ensures
            final(self)@ == (State { pc: new_pc, cycles: 0, accesses: 0, ..old(self)@ }),
    {
        self.reset_stats();
        self.pc = new_pc;
    }

    /// Returns the current value of program counter (PC).
    pub fn pc(&self) -> (r: u8)
        ensures
            r == self@.pc,
    {
        self.pc
    }

    /// Counts how much memory accesses happened since an execution began.
    pub fn accesses(&self) -> (r: usize)
        ensures
            r == self@.accesses,
    {
        self.stats.accesses
    }

    /// Counts how much fetch-decode-execute cycles happened since an execution
    /// began.
    pub fn cycles(&self) -> (r: usize)
        ensures
            r == self@.cycles,
    {
        self.stats.cycles
    }

    /// Reads a byte from an address and update statistics on memory accesses.
    pub fn read(&mut self, ptr: u8) -> (v: u8)
        ensures
            v == old(self)@.mem[ptr as int],
            final(self)@ == touch(old(self)@),
    {
        self.stats.accesses = self.stats.accesses.saturating_add(1);
        self.mem[ptr as usize]
    }

    /// Writes a byte into an address and update statistics on memory accesses.
    pub fn write(&mut self, ptr: u8, val: u8)
        ensures
            final(self)@ == store(old(self)@, ptr, val),
    {
        self.stats.accesses = self.stats.accesses.saturating_add(1);
        self.mem[ptr as usize] = val;
    }

    /// Writes a byte into an address without counting an access: for
    /// loading and patching programs.
    pub fn write_raw(&mut self, ptr: u8, val: u8)
        ensures
            final(self)@ == (State { mem: old(self)@.mem.update(ptr as int, val), ..old(self)@ }),
    {
        self.mem[ptr as usize] = val;
    }

    /// The byte at an address, read without counting an access: for
    /// displaying memory.
    pub fn peek(&self, ptr: u8) -> (v: u8)
        ensures
            v == self@.mem[ptr as int],
    {
        self.mem[ptr as usize]
    }

    /// The accumulator.
    pub fn ac(&self) -> (v: u8)
        ensures
            v == self@.ac,
    {
        self.ac
    }

    /// Reads a byte from current PC address, handles statistics on memory
    /// access, and also increments PC.
    pub fn read_code(&mut self) -> (byte: u8)
        ensures
            byte == code_byte(old(self)@),
            final(self)@ == code_read(old(self)@),
    {
        let byte = self.read(self.pc);
        self.pc = self.pc.wrapping_add(1);
        byte
    }

    /// Stops execution when not done step-by-step.
    pub fn halt(&mut self)
        ensures
            final(self)@ == (State { running: false, ..old(self)@ }),
    {
        self.stats.running = false;
    }

    /// Performs a whole fetch-decode-execute cycle. Statistics about code
    /// execution are handled.
    pub fn cycle(&mut self)
        requires
            old(self)@.cycles < usize::MAX,
        ensures
            final(self)@ == step(old(self)@),
    {
        self.stats.running = true;

        self.stats.cycles = self.stats.cycles + 1;

        let opcode = self.read_code() & 0xF0;
        if opcode == HLT {
            self.halt();
        } else if opcode == NOT {
            self.ac = !self.ac;
        } else if opcode == LDA {
            let addr = self.read_code();
            self.ac = self.read(addr);
        } else if opcode == STA {
            let addr = self.read_code();
            self.write(addr, self.ac);
        } else if opcode == ADD {
            let addr = self.read_code();
            let operand = self.read(addr);
            self.ac = self.ac.wrapping_add(operand);
        } else if opcode == OR {
            let addr = self.read_code();
            let operand = self.read(addr);
            self.ac = self.ac | operand;
        } else if opcode == AND {
            let addr = self.read_code();
            let operand = self.read(addr);
            self.ac = self.ac & operand;
        } else if opcode == JMP {
            self.pc = self.read_code();
        } else if opcode == JN {
            let addr = self.read_code();
            if self.ac & 0x80 != 0 {
                self.pc = addr;
            }
        } else if opcode == JZ {
            let addr = self.read_code();
            if self.ac == 0 {
                self.pc = addr;
            }
        }
    }

    /// Executes a whole algorithm in a single call: this method will only stop
    /// when HLT is found, or when the cycle counter can count no further.
    /// Note that infinite loops will freeze everything.
    pub fn execute_sync(&mut self)
        ensures
            final(self)@.cycles >= old(self)@.cycles,
            final(self)@ == run(old(self)@, (final(self)@.cycles - old(self)@.cycles) as nat),
            forall|j: nat|
                0 < j < final(self)@.cycles - old(self)@.cycles ==> (#[trigger] run(
                    old(self)@,
                    j,
                )).running,
            old(self)@.cycles < usize::MAX ==> final(self)@.cycles > old(self)@.cycles,
            !final(self)@.running || final(self)@.cycles == usize::MAX,
    {
        let ghost start = self@;
        let ghost mut n: nat = 0;
        loop
            invariant_except_break
                forall|j: nat| 0 < j <= n ==> (#[trigger] run(start, j)).running,
            invariant
                start == old(self)@,
                self@ == run(start, n),
                self@.cycles == start.cycles + n,
                forall|j: nat| 0 < j < n ==> (#[trigger] run(start, j)).running,
            ensures
                self@ == run(start, n),
                self@.cycles == start.cycles + n,
                forall|j: nat| 0 < j < n ==> (#[trigger] run(start, j)).running,
                start.cycles < usize::MAX ==> n > 0,
                !self@.running || self@.cycles == usize::MAX,
            decreases usize::MAX - self@.cycles,
        {
            if self.stats.cycles == usize::MAX {
                break;
            }
            self.cycle();
            proof {
                n = n + 1;
            }
            if !self.stats.running {
                break;
            }
        }
    }

    /// Executes a few cycles of an algorithm. This should be called if
    /// asynchronous execution is being coded. A boolean is returned indicating
    /// whether HLT was found.
    pub fn execute_async_round(&mut self) -> (halted: bool)
        ensures
            final(self)@.cycles >= old(self)@.cycles,
            final(self)@.cycles - old(self)@.cycles <= CYCLES_PER_ASYNC_CALL,
            final(self)@ == run(old(self)@, (final(self)@.cycles - old(self)@.cycles) as nat),
            forall|j: nat|
                0 < j < final(self)@.cycles - old(self)@.cycles ==> (#[trigger] run(
                    old(self)@,
                    j,
                )).running,
            !final(self)@.running || final(self)@.cycles == usize::MAX || final(self)@.cycles
                - old(self)@.cycles == CYCLES_PER_ASYNC_CALL,
            old(self)@.cycles < usize::MAX ==> final(self)@.cycles > old(self)@.cycles,
            halted == !final(self)@.running,
    {
        let ghost start = self@;
        let mut i: usize = 0;
        while i < CYCLES_PER_ASYNC_CALL
            invariant_except_break
                i <= CYCLES_PER_ASYNC_CALL,
                start == old(self)@,
                self@ == run(start, i as nat),
                self@.cycles == start.cycles + i,
                forall|j: nat| 0 < j <= i ==> (#[trigger] run(start, j)).running,
            ensures
                i <= CYCLES_PER_ASYNC_CALL,
                self@ == run(start, i as nat),
                self@.cycles == start.cycles + i,
                forall|j: nat| 0 < j < i ==> (#[trigger] run(start, j)).running,
                !self@.running || self@.cycles == usize::MAX || i == CYCLES_PER_ASYNC_CALL,
                start.cycles < usize::MAX ==> i > 0,
            decreases CYCLES_PER_ASYNC_CALL - i,
        {
            if self.stats.cycles == usize::MAX {
                break;
            }
            self.cycle();
            i = i + 1;
            if !self.stats.running {
                break;
            }
        }
        !self.stats.running
    }

    /// Encodes the memory as a memory image.
    pub fn encode(&self) -> (bytes: Vec<u8>)
        ensures
            bytes@ == mem_file(self@.mem),
    {
        let mut out: Vec<u8> = Vec::new();
        push_all(&mut out, &HEADER);
        push_cells(&mut out, &self.mem);
        out
    }

    /// Decodes the memory from a memory image.  On an error nothing changes.
    pub fn decode(&mut self, input: &[u8]) -> (r: Result<(), LoadError>)
        ensures
            r == frame_outcome(input@, HEADER@, FILE_LEN as nat),
            r is Ok ==> final(self)@ == (State { mem: uncells(input@, 4), ..old(self)@ }),
            r is Err ==> *final(self) == *old(self),
    {
        match check_frame(input, &HEADER, FILE_LEN) {
            Ok(()) => {},
            Err(e) => {
                return Err(e);
            },
        }
        self.mem = read_cells(input, HEADER_LEN);
        Ok(())
    }
}

impl Default for Machine {
    fn default() -> (m: Self)
        ensures
            m@ == initial(),
    {
        Self::new()
    }
}

/// Writing a byte through the accounted path and reading it back gives
/// the byte, and counts two accesses, unless the counter is about to stop.
pub proof fn lemma_write_then_read(s: State, addr: u8, v: u8)
    requires
        s.mem.len() == 256,
        s.accesses + 2 <= usize::MAX,
    ensures
        store(s, addr, v).mem[addr as int] == v,
        touch(store(s, addr, v)).accesses == s.accesses + 2,
{
}

/// Encoding the memory and decoding it into any machine gives back the
/// memory.
pub proof fn lemma_mem_round_trip(mem: Seq<u8>)
    requires
        mem.len() == 256,
    ensures
        frame_outcome(mem_file(mem), HEADER@, FILE_LEN as nat) is Ok,
        uncells(mem_file(mem), 4) == mem,
{
    crate::codec::lemma_cells_len(mem);
    assert(mem_file(mem).subrange(0, 4) =~= HEADER@);
    crate::codec::lemma_uncells_cells(mem, HEADER@, Seq::empty());
    assert(HEADER@ + cells(mem) + Seq::empty() =~= mem_file(mem));
}

} // verus!

verus! {

/// Whether `s` holds, from address 0, the program that subtracts by adding
/// the two's complement: `LDA 0x81; NOT; ADD 0x83; ADD 0x80; STA 0x82;
/// HLT`, with the constant 1 at 0x83.
pub open spec fn holds_sub_program(s: State) -> bool {
    &&& s.mem.len() == 256
    &&& s.mem[0] == LDA
    &&& s.mem[1] == 0x81
    &&& s.mem[2] == NOT
    &&& s.mem[3] == ADD
    &&& s.mem[4] == 0x83
    &&& s.mem[5] == ADD
    &&& s.mem[6] == 0x80
    &&& s.mem[7] == STA
    &&& s.mem[8] == 0x82
    &&& s.mem[9] == HLT
    &&& s.mem[0x83] == 1
}

/// Run from address 0 with fresh counters by `execute_sync`, the
/// subtraction program stores
/// `mem[0x80] - mem[0x81]` modulo 256 at 0x82 and halts after exactly six
/// cycles and fourteen accesses, whatever the two operands are.
pub proof fn lemma_sub_program(s: State)
    requires
        holds_sub_program(s),
        s.pc == 0,
        s.cycles == 0,
        s.accesses == 0,
    ensures
        ({
            let f = run(s, 6);
            &&& f.mem[0x82] == ((s.mem[0x80] - s.mem[0x81] + 256) % 256) as u8
            &&& !f.running
            &&& f.cycles == 6
            &&& f.accesses == 14
            &&& f.pc == 10
        }),
        forall|j: nat| 0 < j < 6 ==> (#[trigger] run(s, j)).running,
{
    let x = s.mem[0x80];
    let y = s.mem[0x81];
    let s0 = s;
    let s1 = run(s0, 1);
    let s2 = run(s0, 2);
    let s3 = run(s0, 3);
    let s4 = run(s0, 4);
    let s5 = run(s0, 5);
    let s6 = run(s0, 6);
    assert(run(s0, 0) == s0);
    assert(0x20u8 & 0xF0u8 == 0x20u8 && 0x60u8 & 0xF0u8 == 0x60u8 && 0x30u8 & 0xF0u8 == 0x30u8
        && 0x10u8 & 0xF0u8 == 0x10u8 && 0xF0u8 & 0xF0u8 == 0xF0u8) by (bit_vector);
    assert(s1.ac == y && s1.pc == 2 && s1.accesses == 3 && s1.running && s1.mem == s.mem);
    assert(s2.ac == !y && s2.pc == 3 && s2.accesses == 4 && s2.running && s2.mem == s.mem);
    assert(!y == 255 - y) by (bit_vector);
    assert(s3.ac == ((!y + 1) % 256) as u8 && s3.pc == 5 && s3.accesses == 7 && s3.mem == s.mem);
    assert(s4.ac == ((x - y + 256) % 256) as u8 && s4.pc == 7 && s4.accesses == 10);
    assert(s5.mem[0x82] == ((x - y + 256) % 256) as u8 && s5.pc == 9 && s5.accesses == 13);
    assert(s6.mem[0x82] == s5.mem[0x82] && !s6.running && s6.pc == 10 && s6.accesses == 14);
    assert forall|j: nat| 0 < j < 6 implies (#[trigger] run(s0, j)).running by {
        if j == 1 {
        } else if j == 2 {
        } else if j == 3 {
        } else if j == 4 {
        } else {
            assert(j == 5);
        }
    }
}

} // verus!
