//! Text that the simulators show: memory dumps, disassembly listings,
//! registers and statistics.  All text is ASCII and is produced as bytes.
use vstd::prelude::*;
use vstd::string::StringSliceAdditionalSpecFns;

verus! {

/// An instruction table: which opcodes name an instruction, with the
/// instruction's mnemonic and whether an operand byte follows it.
pub trait InstructionSet {
    /// The mnemonic and operand flag of `opcode`, if it names an instruction.
    spec fn spec_lookup(opcode: u8) -> Option<(&'static str, bool)>;

    /// Looks `opcode` up in the table.
    fn lookup(opcode: u8) -> (r: Option<(&'static str, bool)>)
        ensures
            r == Self::spec_lookup(opcode),
    ;
}

/// ASCII code of the digit `d` (0 to 15), upper-case for digits past 9.
pub open spec fn digit(d: int) -> u8 {
    if d < 10 {
        (48 + d) as u8
    } else {
        (55 + d) as u8
    }
}

/// `v` as two upper-case hexadecimal digits.
pub open spec fn hex2(v: u8) -> Seq<u8> {
    seq![digit(v as int / 16), digit(v as int % 16)]
}

/// `v` as three decimal digits, with leading zeros.
pub open spec fn dec3(v: u8) -> Seq<u8> {
    seq![digit(v as int / 100), digit((v as int / 10) % 10), digit(v as int % 10)]
}

/// `v` in the chosen base: two hexadecimal or three decimal digits.
pub open spec fn byte_text(v: u8, hex: bool) -> Seq<u8> {
    if hex {
        hex2(v)
    } else {
        dec3(v)
    }
}

/// `n` in decimal, without leading zeros.
pub open spec fn dec_text(n: nat) -> Seq<u8>
    decreases n,
{
    if n < 10 {
        seq![digit(n as int)]
    } else {
        dec_text(n / 10).push(digit((n % 10) as int))
    }
}

/// The text " = ".
pub open spec fn equals_text() -> Seq<u8> {
    seq![32u8, 61u8, 32u8]
}

/// The line start `addr = value` for one memory cell.
pub open spec fn cell_text(addr: u8, value: u8, hex: bool) -> Seq<u8> {
    byte_text(addr, hex) + equals_text() + byte_text(value, hex)
}

/// The memory dump of `addrs`: one line `addr = value` per address.
pub open spec fn data_text(mem: Seq<u8>, addrs: Seq<u8>, hex: bool) -> Seq<u8>
    decreases addrs.len(),
{
    if addrs.len() == 0 {
        seq![]
    } else {
        cell_text(addrs[0], mem[addrs[0] as int], hex).push(10u8) + data_text(
            mem,
            addrs.drop_first(),
            hex,
        )
    }
}

/// What follows the cell on a listing line: nothing when the byte is the
/// operand of the previous instruction or names no instruction, else two
/// spaces and the mnemonic.
pub open spec fn mnemonic_text<I: InstructionSet>(value: u8, operand_pending: bool) -> Seq<u8> {
    if operand_pending {
        seq![]
    } else {
        match I::spec_lookup(value) {
            Some((m, _)) => seq![32u8, 32u8] + m.spec_bytes(),
            None => seq![],
        }
    }
}

/// Whether the byte after `value` is an operand of the instruction that
/// `value` starts.
pub open spec fn operand_follows<I: InstructionSet>(value: u8, operand_pending: bool) -> bool {
    if operand_pending {
        false
    } else {
        match I::spec_lookup(value) {
            Some((_, operand)) => operand,
            None => false,
        }
    }
}

/// One listing line.
pub open spec fn code_line<I: InstructionSet>(
    addr: u8,
    value: u8,
    hex: bool,
    operand_pending: bool,
) -> Seq<u8> {
    (cell_text(addr, value, hex) + mnemonic_text::<I>(value, operand_pending)).push(10u8)
}

/// The disassembly listing of `addrs`, where `operand_pending` tells
/// whether the first address is the operand of an instruction before it.
pub open spec fn code_text<I: InstructionSet>(
    mem: Seq<u8>,
    addrs: Seq<u8>,
    hex: bool,
    operand_pending: bool,
) -> Seq<u8>
    decreases addrs.len(),
{
    if addrs.len() == 0 {
        seq![]
    } else {
        let value = mem[addrs[0] as int];
        code_line::<I>(addrs[0], value, hex, operand_pending) + code_text::<I>(
            mem,
            addrs.drop_first(),
            hex,
            operand_follows::<I>(value, operand_pending),
        )
    }
}

/// ASCII code of the digit `d`.
pub fn digit_byte(d: u8) -> (r: u8)
    requires
        d < 16,
    ensures
        r == digit(d as int),
{
    if d < 10 {
        48 + d
    } else {
        55 + d
    }
}

/// Appends `v` in the chosen base to `out`.
pub fn push_byte_text(out: &mut Vec<u8>, v: u8, hex: bool)
    ensures
        final(out)@ == old(out)@ + byte_text(v, hex),
{
    if hex {
        out.push(digit_byte(v / 16));
        out.push(digit_byte(v % 16));
    } else {
        out.push(digit_byte(v / 100));
        out.push(digit_byte((v / 10) % 10));
        out.push(digit_byte(v % 10));
    }
    assert(out@ =~= old(out)@ + byte_text(v, hex));
}

/// Appends `n` in decimal to `out`.
pub fn push_dec(out: &mut Vec<u8>, n: u64)
    ensures
        final(out)@ == old(out)@ + dec_text(n as nat),
    decreases n,
{
    if n < 10 {
        out.push(digit_byte(n as u8));
    } else {
        push_dec(out, n / 10);
        out.push(digit_byte((n % 10) as u8));
    }
    assert(out@ =~= old(out)@ + dec_text(n as nat));
}

/// Appends the text " = ".
fn push_equals(out: &mut Vec<u8>)
    ensures
        final(out)@ == old(out)@ + equals_text(),
{
    out.push(32u8);
    out.push(61u8);
    out.push(32u8);
    assert(out@ =~= old(out)@ + equals_text());
}

/// Appends the line start `addr = value` to `out`.
pub fn push_cell(out: &mut Vec<u8>, addr: u8, value: u8, hex: bool)
    ensures
        final(out)@ == old(out)@ + cell_text(addr, value, hex),
{
    push_byte_text(out, addr, hex);
    push_equals(out);
    push_byte_text(out, value, hex);
    assert(out@ =~= old(out)@ + cell_text(addr, value, hex));
}

/// Appends the bytes of `s` to `out`.
pub fn push_str(out: &mut Vec<u8>, s: &str)
    ensures
        final(out)@ == old(out)@ + s.spec_bytes(),
{
    crate::codec::push_all(out, s.as_bytes());
}

/// Memory dump of the addresses in `addrs`, in that order: one line
/// `addr = value` per address.
pub fn data_listing(mem: &[u8; 256], addrs: &[u8], hex: bool) -> (text: Vec<u8>)
    ensures
        text@ == data_text(mem@, addrs@, hex),
{
    let mut out: Vec<u8> = Vec::new();
    let mut i: usize = 0;
    assert(addrs@.subrange(0, addrs@.len() as int) =~= addrs@);
    assert(out@ + data_text(mem@, addrs@, hex) =~= data_text(mem@, addrs@, hex));
    while i < addrs.len()
        invariant
            i <= addrs@.len(),
            out@ + data_text(mem@, addrs@.subrange(i as int, addrs@.len() as int), hex)
                == data_text(mem@, addrs@, hex),
        decreases addrs@.len() - i,
    {
        let ghost rest = addrs@.subrange(i as int, addrs@.len() as int);
        let ghost before = out@;
        let addr = addrs[i];
        push_cell(&mut out, addr, mem[addr as usize], hex);
        out.push(10u8);
        i = i + 1;
        assert(rest.drop_first() =~= addrs@.subrange(i as int, addrs@.len() as int));
        assert(out@ + data_text(mem@, rest.drop_first(), hex) =~= before + data_text(
            mem@,
            rest,
            hex,
        ));
    }
    assert(addrs@.subrange(i as int, addrs@.len() as int) =~= Seq::<u8>::empty());
    assert(out@ + Seq::<u8>::empty() =~= out@);
    out
}

/// Appends one listing line and tells whether the next byte is an operand.
fn push_code_line<I: InstructionSet>(
    out: &mut Vec<u8>,
    addr: u8,
    value: u8,
    hex: bool,
    operand_pending: bool,
) -> (next_pending: bool)
    ensures
        final(out)@ == old(out)@ + code_line::<I>(addr, value, hex, operand_pending),
        next_pending == operand_follows::<I>(value, operand_pending),
{
    push_cell(out, addr, value, hex);
    let mut next_pending = false;
    if !operand_pending {
        match I::lookup(value) {
            Some((mnemonic, operand)) => {
                next_pending = operand;
                out.push(32u8);
                out.push(32u8);
                push_str(out, mnemonic);
            },
            None => {},
        }
    }
    out.push(10u8);
    assert(out@ =~= old(out)@ + code_line::<I>(addr, value, hex, operand_pending));
    next_pending
}

/// Disassembly listing of the addresses in `addrs`, in that order.  Each
/// line is `addr = value`, followed by the mnemonic when the byte names an
/// instruction and is not the operand of the instruction on the line before.
pub fn code_listing<I: InstructionSet>(mem: &[u8; 256], addrs: &[u8], hex: bool) -> (text: Vec<u8>)
    ensures
        text@ == code_text::<I>(mem@, addrs@, hex, false),
{
    let mut out: Vec<u8> = Vec::new();
    let mut pending = false;
    let mut i: usize = 0;
    assert(addrs@.subrange(0, addrs@.len() as int) =~= addrs@);
    assert(out@ + code_text::<I>(mem@, addrs@, hex, false) =~= code_text::<I>(mem@, addrs@, hex, false));
    while i < addrs.len()
        invariant
            i <= addrs@.len(),
            out@ + code_text::<I>(mem@, addrs@.subrange(i as int, addrs@.len() as int), hex, pending)
                == code_text::<I>(mem@, addrs@, hex, false),
        decreases addrs@.len() - i,
    {
        let ghost rest = addrs@.subrange(i as int, addrs@.len() as int);
        let ghost before = out@;
        let ghost was_pending = pending;
        let addr = addrs[i];
        let value = mem[addr as usize];
        pending = push_code_line::<I>(&mut out, addr, value, hex, pending);
        i = i + 1;
        assert(rest.drop_first() =~= addrs@.subrange(i as int, addrs@.len() as int));
        assert(out@ + code_text::<I>(mem@, rest.drop_first(), hex, pending) =~= before
            + code_text::<I>(mem@, rest, hex, was_pending));
    }
    assert(addrs@.subrange(i as int, addrs@.len() as int) =~= Seq::<u8>::empty());
    assert(out@ + Seq::<u8>::empty() =~= out@);
    out
}

/// In a listing, an instruction that takes an operand, followed by its
/// operand and then by an instruction without one, shows the first
/// mnemonic on the first line, no mnemonic on the operand's line, whatever
/// the operand's byte would decode to, and the second mnemonic on the third.
pub proof fn lemma_operand_line_has_no_mnemonic<I: InstructionSet>(
    mem: Seq<u8>,
    addrs: Seq<u8>,
    hex: bool,
    op: &'static str,
    next: &'static str,
)
    requires
        mem.len() == 256,
        addrs.len() == 3,
        I::spec_lookup(mem[addrs[0] as int]) == Some((op, true)),
        I::spec_lookup(mem[addrs[2] as int]) == Some((next, false)),
    ensures
        code_text::<I>(mem, addrs, hex, false) == (cell_text(addrs[0], mem[addrs[0] as int], hex)
            + seq![32u8, 32u8] + op.spec_bytes()).push(10u8) + cell_text(
            addrs[1],
            mem[addrs[1] as int],
            hex,
        ).push(10u8) + (cell_text(addrs[2], mem[addrs[2] as int], hex) + seq![32u8, 32u8]
            + next.spec_bytes()).push(10u8),
{
    let a1 = addrs.drop_first();
    let a2 = a1.drop_first();
    let a3 = a2.drop_first();
    assert(a3.len() == 0);
    assert(a1[0] == addrs[1]);
    assert(a2[0] == addrs[2]);
    assert(cell_text(addrs[1], mem[addrs[1] as int], hex) + Seq::<u8>::empty() =~= cell_text(
        addrs[1],
        mem[addrs[1] as int],
        hex,
    ));
    let v0 = mem[addrs[0] as int];
    let v1 = mem[addrs[1] as int];
    let v2 = mem[addrs[2] as int];
    let l0 = code_line::<I>(addrs[0], v0, hex, false);
    let l1 = code_line::<I>(addrs[1], v1, hex, true);
    let l2 = code_line::<I>(addrs[2], v2, hex, false);
    assert(code_text::<I>(mem, a3, hex, operand_follows::<I>(v2, false)) =~= Seq::<u8>::empty());
    assert(code_text::<I>(mem, a2, hex, false) =~= l2);
    assert(operand_follows::<I>(v1, true) == false);
    assert(code_text::<I>(mem, a1, hex, true) == l1 + code_text::<I>(mem, a2, hex, false));
    assert(operand_follows::<I>(v0, false) == true);
    assert(code_text::<I>(mem, addrs, hex, false) == l0 + code_text::<I>(mem, a1, hex, true));
    assert(mnemonic_text::<I>(v0, false) == seq![32u8, 32u8] + op.spec_bytes());
    assert(mnemonic_text::<I>(v2, false) == seq![32u8, 32u8] + next.spec_bytes());
    assert(mnemonic_text::<I>(v1, true) =~= Seq::<u8>::empty());
    assert(cell_text(addrs[1], v1, hex) + Seq::<u8>::empty() =~= cell_text(addrs[1], v1, hex));
    assert(cell_text(addrs[0], v0, hex) + (seq![32u8, 32u8] + op.spec_bytes()) =~= cell_text(
        addrs[0],
        v0,
        hex,
    ) + seq![32u8, 32u8] + op.spec_bytes());
    assert(cell_text(addrs[2], v2, hex) + (seq![32u8, 32u8] + next.spec_bytes()) =~= cell_text(
        addrs[2],
        v2,
        hex,
    ) + seq![32u8, 32u8] + next.spec_bytes());
}

} // verus!

verus! {

/// One register line: `name = value`.
pub open spec fn register_text(name: Seq<u8>, v: u8, hex: bool) -> Seq<u8> {
    (name + equals_text() + byte_text(v, hex)).push(10u8)
}

/// Appends one register line to `out`.
pub fn push_register(out: &mut Vec<u8>, name: &str, v: u8, hex: bool)
    ensures
        final(out)@ == old(out)@ + register_text(name.spec_bytes(), v, hex),
{
    push_str(out, name);
    push_equals(out);
    push_byte_text(out, v, hex);
    out.push(10u8);
    assert(out@ =~= old(out)@ + register_text(name.spec_bytes(), v, hex));
}

/// The statistics text: `cycles = n` and `accesses = n` lines in decimal.
pub open spec fn stats_text(cycles: nat, accesses: nat) -> Seq<u8> {
    ("cycles".spec_bytes() + equals_text() + dec_text(cycles)).push(10u8) + (
    "accesses".spec_bytes() + equals_text() + dec_text(accesses)).push(10u8)
}

/// Renders the statistics text.
pub fn stats_listing(cycles: u64, accesses: u64) -> (text: Vec<u8>)
    ensures
        text@ == stats_text(cycles as nat, accesses as nat),
{
    let mut out: Vec<u8> = Vec::new();
    push_str(&mut out, "cycles");
    push_equals(&mut out);
    push_dec(&mut out, cycles);
    out.push(10u8);
    push_str(&mut out, "accesses");
    push_equals(&mut out);
    push_dec(&mut out, accesses);
    out.push(10u8);
    assert(out@ =~= stats_text(cycles as nat, accesses as nat));
    out
}

} // verus!

verus! {

/// Whether the `i`-th address of a walk holds the operand of the
/// instruction on the line before, for a walk whose first address has
/// `operand_pending`.
pub open spec fn pending_at<I: InstructionSet>(
    mem: Seq<u8>,
    addrs: Seq<u8>,
    operand_pending: bool,
    i: nat,
) -> bool
    decreases i,
{
    if i == 0 {
        operand_pending
    } else {
        operand_follows::<I>(
            mem[addrs[i - 1] as int],
            pending_at::<I>(mem, addrs, operand_pending, (i - 1) as nat),
        )
    }
}

/// The lines of a listing, one per address of the walk.
pub open spec fn listing_lines<I: InstructionSet>(
    mem: Seq<u8>,
    addrs: Seq<u8>,
    hex: bool,
    operand_pending: bool,
) -> Seq<Seq<u8>> {
    Seq::new(
        addrs.len(),
        |i: int|
            code_line::<I>(
                addrs[i],
                mem[addrs[i] as int],
                hex,
                pending_at::<I>(mem, addrs, operand_pending, i as nat),
            ),
    )
}

/// Dropping the first address of a walk shifts the operand state by one.
proof fn lemma_pending_shift<I: InstructionSet>(
    mem: Seq<u8>,
    addrs: Seq<u8>,
    operand_pending: bool,
    i: nat,
)
    requires
        i < addrs.len(),
    ensures
        pending_at::<I>(mem, addrs, operand_pending, i + 1) == pending_at::<I>(
            mem,
            addrs.drop_first(),
            operand_follows::<I>(mem[addrs[0] as int], operand_pending),
            i,
        ),
    decreases i,
{
    let rest = addrs.drop_first();
    let next = operand_follows::<I>(mem[addrs[0] as int], operand_pending);
    assert(pending_at::<I>(mem, addrs, operand_pending, 0) == operand_pending);
    if i > 0 {
        lemma_pending_shift::<I>(mem, addrs, operand_pending, (i - 1) as nat);
        assert(rest[i - 1] == addrs[i as int]);
        assert(pending_at::<I>(mem, rest, next, i) == operand_follows::<I>(
            mem[rest[i - 1] as int],
            pending_at::<I>(mem, rest, next, (i - 1) as nat),
        ));
    } else {
        assert(pending_at::<I>(mem, rest, next, 0) == next);
    }
    assert(pending_at::<I>(mem, addrs, operand_pending, i + 1) == operand_follows::<I>(
        mem[addrs[i as int] as int],
        pending_at::<I>(mem, addrs, operand_pending, i),
    ));
}

/// The listing text is its lines, one per address, joined.
proof fn lemma_code_text_lines<I: InstructionSet>(
    mem: Seq<u8>,
    addrs: Seq<u8>,
    hex: bool,
    operand_pending: bool,
)
    ensures
        code_text::<I>(mem, addrs, hex, operand_pending) == listing_lines::<I>(
            mem,
            addrs,
            hex,
            operand_pending,
        ).flatten(),
    decreases addrs.len(),
{
    let lines = listing_lines::<I>(mem, addrs, hex, operand_pending);
    if addrs.len() == 0 {
        assert(lines.len() == 0);
    } else {
        let rest = addrs.drop_first();
        let next = operand_follows::<I>(mem[addrs[0] as int], operand_pending);
        lemma_code_text_lines::<I>(mem, rest, hex, next);
        assert forall|i: int| 0 <= i < rest.len() implies #[trigger] lines.drop_first()[i]
            == listing_lines::<I>(mem, rest, hex, next)[i] by {
            lemma_pending_shift::<I>(mem, addrs, operand_pending, i as nat);
            assert(rest[i] == addrs[i + 1]);
        }
        assert(lines.drop_first() =~= listing_lines::<I>(mem, rest, hex, next));
        assert(lines.first() == code_line::<I>(addrs[0], mem[addrs[0] as int], hex, operand_pending));
    }
}

/// A listing has one line per address of the walk, in the walk's order,
/// whatever address the walk starts or ends at.  Line `i` is `addr =
/// value`, then two spaces and the mnemonic exactly when the byte names an
/// instruction and is not an operand, then a newline.  A byte is an operand
/// exactly when the line before shows an instruction that takes one; the
/// first line is never an operand.
pub proof fn lemma_listing_line_by_line<I: InstructionSet>(mem: Seq<u8>, addrs: Seq<u8>, hex: bool)
    ensures
        code_text::<I>(mem, addrs, hex, false) == listing_lines::<I>(mem, addrs, hex, false).flatten(),
        listing_lines::<I>(mem, addrs, hex, false).len() == addrs.len(),
        forall|i: int|
            0 <= i < addrs.len() ==> #[trigger] listing_lines::<I>(mem, addrs, hex, false)[i] == (
            cell_text(addrs[i], mem[addrs[i] as int], hex) + match I::spec_lookup(
                mem[addrs[i] as int],
            ) {
                Some((m, _)) => if !pending_at::<I>(mem, addrs, false, i as nat) {
                    seq![32u8, 32u8] + m.spec_bytes()
                } else {
                    Seq::empty()
                },
                None => Seq::empty(),
            }).push(10u8),
        !pending_at::<I>(mem, addrs, false, 0),
        forall|i: int|
            0 < i < addrs.len() ==> #[trigger] pending_at::<I>(mem, addrs, false, i as nat) == (
            !pending_at::<I>(mem, addrs, false, (i - 1) as nat) && I::spec_lookup(
                mem[addrs[i - 1] as int],
            ) matches Some((_, true))),
{
    lemma_code_text_lines::<I>(mem, addrs, hex, false);
    assert forall|i: int| 0 < i < addrs.len() implies #[trigger] pending_at::<I>(
        mem,
        addrs,
        false,
        i as nat,
    ) == (!pending_at::<I>(mem, addrs, false, (i - 1) as nat) && I::spec_lookup(
        mem[addrs[i - 1] as int],
    ) matches Some((_, true))) by {
        assert((i as nat - 1) as nat == (i - 1) as nat);
    }
}

} // verus!
