//! Byte framing shared by every machine's memory image and state snapshot.
//!
//! A file starts with a four-byte magic header (a length byte, then three
//! letters naming the machine).  Memory is stored as 256 two-byte cells:
//! the byte itself followed by a zero filler.  Counters are stored as eight
//! little-endian bytes.
use vstd::prelude::*;
use crate::memory::same_bytes;
use vstd::string::StringSliceAdditionalSpecFns;

verus! {

/// Length of the magic header that starts every file.
pub const HEADER_LEN: usize = 4;

/// Length of the memory section: 256 cells of two bytes each.
pub const CELLS_LEN: usize = 512;

/// Why a byte stream could not be loaded into a machine.
#[derive(Debug, Clone, Copy, PartialEq, Eq)]
pub enum LoadError {
    /// The magic header does not belong to this machine and file kind:
    /// the file is invalid or corrupted.
    InvalidFile,
    /// The stream ended before the whole file could be read.
    UnexpectedEof,
}

/// Outcome of checking a stream against a header and the full file length:
/// a stream too short to hold the header, a wrong header, then a stream too
/// short to hold the whole file, in that order.
pub open spec fn frame_outcome(bytes: Seq<u8>, header: Seq<u8>, len: nat) -> Result<(), LoadError> {
    if bytes.len() < HEADER_LEN {
        Err(LoadError::UnexpectedEof)
    } else if bytes.subrange(0, HEADER_LEN as int) != header {
        Err(LoadError::InvalidFile)
    } else if bytes.len() < len {
        Err(LoadError::UnexpectedEof)
    } else {
        Ok(())
    }
}

/// Checks that `bytes` starts with `header` and holds at least `len` bytes.
pub fn check_frame(bytes: &[u8], header: &[u8; 4], len: usize) -> (r: Result<(), LoadError>)
    ensures
        r == frame_outcome(bytes@, header@, len as nat),
{
    if bytes.len() < HEADER_LEN {
        return Err(LoadError::UnexpectedEof);
    }
    let mut i: usize = 0;
    while i < HEADER_LEN
        invariant
            i <= HEADER_LEN <= bytes@.len(),
            forall|j: int| 0 <= j < i ==> bytes@[j] == header@[j],
        decreases HEADER_LEN - i,
    {
        if bytes[i] != header[i] {
            assert(bytes@.subrange(0, HEADER_LEN as int)[i as int] != header@[i as int]);
            return Err(LoadError::InvalidFile);
        }
        i = i + 1;
    }
    assert(bytes@.subrange(0, HEADER_LEN as int) =~= header@);
    if bytes.len() < len {
        Err(LoadError::UnexpectedEof)
    } else {
        Ok(())
    }
}

/// The memory section of a file: each byte followed by a zero filler.
#[verifier::opaque]
pub open spec fn cells(mem: Seq<u8>) -> Seq<u8> {
    Seq::new(2 * mem.len(), |j: int| if j % 2 == 0 { mem[j / 2] } else { 0u8 })
}

/// The memory that a memory section starting at `at` describes: the first
/// byte of each cell.  The filler bytes are not looked at.
pub open spec fn uncells(bytes: Seq<u8>, at: int) -> Seq<u8> {
    Seq::new(256, |i: int| bytes[at + 2 * i])
}

/// Appends `bytes` to `out`.
pub fn push_all(out: &mut Vec<u8>, bytes: &[u8])
    ensures
        final(out)@ == old(out)@ + bytes@,
{
    let mut i: usize = 0;
    while i < bytes.len()
        invariant
            i <= bytes@.len(),
            out@ == old(out)@ + bytes@.subrange(0, i as int),
        decreases bytes@.len() - i,
    {
        out.push(bytes[i]);
        i = i + 1;
        assert(out@ =~= old(out)@ + bytes@.subrange(0, i as int));
    }
    assert(bytes@.subrange(0, i as int) =~= bytes@);
}

/// Appends the memory section for `mem` to `out`.
pub fn push_cells(out: &mut Vec<u8>, mem: &[u8; 256])
    ensures
        final(out)@ == old(out)@ + cells(mem@),
{
    reveal(cells);
    let mut i: usize = 0;
    while i < 256
        invariant
            i <= 256,
            mem@.len() == 256,
            out@ == old(out)@ + cells(mem@.subrange(0, i as int)),
        decreases 256 - i,
    {
        reveal(cells);
        out.push(mem[i]);
        out.push(0u8);
        i = i + 1;
        assert(out@ =~= old(out)@ + cells(mem@.subrange(0, i as int))) by {
            let c = cells(mem@.subrange(0, i as int));
            let p = cells(mem@.subrange(0, i - 1));
            assert forall|j: int| 0 <= j < c.len() implies #[trigger] c[j] == (p + seq![mem@[i - 1], 0u8])[j] by {
                if j < p.len() {
                    assert(j / 2 < i - 1);
                } else if j == p.len() {
                    assert(j / 2 == i - 1);
                } else {
                    assert(j % 2 == 1);
                }
            }
            assert(c =~= p + seq![mem@[i - 1], 0u8]);
        }
    }
    assert(mem@.subrange(0, 256) =~= mem@);
}

/// The memory section holds two bytes per memory byte.
pub proof fn lemma_cells_len(mem: Seq<u8>)
    ensures
        cells(mem).len() == 2 * mem.len(),
{
    reveal(cells);
}

/// Reads the memory section that starts at `at` in `bytes`.
pub fn read_cells(bytes: &[u8], at: usize) -> (mem: [u8; 256])
    requires
        at + CELLS_LEN <= bytes@.len(),
    ensures
        mem@ == uncells(bytes@, at as int),
{
    let mut mem = [0u8; 256];
    let n = bytes.len();
    let mut i: usize = 0;
    while i < 256
        invariant
            i <= 256,
            n == bytes@.len(),
            at + CELLS_LEN <= n,
            mem@.len() == 256,
            forall|j: int| 0 <= j < i ==> mem@[j] == bytes@[at + 2 * j],
        decreases 256 - i,
    {
        mem[i] = bytes[at + 2 * i];
        i = i + 1;
    }
    assert(mem@ =~= uncells(bytes@, at as int));
    mem
}

/// The memory section of `mem` describes `mem` again.
pub proof fn lemma_uncells_cells(mem: Seq<u8>, prefix: Seq<u8>, suffix: Seq<u8>)
    requires
        mem.len() == 256,
    ensures
        uncells(prefix + cells(mem) + suffix, prefix.len() as int) == mem,
{
    reveal(cells);
    let bytes = prefix + cells(mem) + suffix;
    let at = prefix.len() as int;
    assert forall|i: int| 0 <= i < 256 implies #[trigger] uncells(bytes, at)[i] == mem[i] by {
        assert(bytes[at + 2 * i] == cells(mem)[2 * i]);
        assert((2 * i) % 2 == 0 && (2 * i) / 2 == i);
    }
    assert(uncells(bytes, at) =~= mem);
}

/// Eight little-endian bytes of `v`.
pub open spec fn le_bytes(v: u64) -> Seq<u8> {
    seq![
        (v & 0xff) as u8,
        ((v >> 8) & 0xff) as u8,
        ((v >> 16) & 0xff) as u8,
        ((v >> 24) & 0xff) as u8,
        ((v >> 32) & 0xff) as u8,
        ((v >> 40) & 0xff) as u8,
        ((v >> 48) & 0xff) as u8,
        ((v >> 56) & 0xff) as u8,
    ]
}

/// The number that eight little-endian bytes starting at `at` stand for.
pub open spec fn le_value(b: Seq<u8>, at: int) -> u64 {
    le_join(b[at], b[at + 1], b[at + 2], b[at + 3], b[at + 4], b[at + 5], b[at + 6], b[at + 7])
}

/// Joins eight bytes, least significant first, into a number.
#[verifier::opaque]
pub open spec fn le_join(b0: u8, b1: u8, b2: u8, b3: u8, b4: u8, b5: u8, b6: u8, b7: u8) -> u64 {
    (b0 as u64) | (b1 as u64) << 8 | (b2 as u64) << 16 | (b3 as u64) << 24 | (b4 as u64) << 32
        | (b5 as u64) << 40 | (b6 as u64) << 48 | (b7 as u64) << 56
}

/// Appends the eight little-endian bytes of `v` to `out`.
pub fn push_u64_le(out: &mut Vec<u8>, v: u64)
    ensures
        final(out)@ == old(out)@ + le_bytes(v),
{
    out.push((v & 0xff) as u8);
    out.push(((v >> 8) & 0xff) as u8);
    out.push(((v >> 16) & 0xff) as u8);
    out.push(((v >> 24) & 0xff) as u8);
    out.push(((v >> 32) & 0xff) as u8);
    out.push(((v >> 40) & 0xff) as u8);
    out.push(((v >> 48) & 0xff) as u8);
    out.push(((v >> 56) & 0xff) as u8);
    assert(out@ =~= old(out)@ + le_bytes(v));
}

/// Reads the number stored in eight little-endian bytes starting at `at`.
pub fn read_u64_le(bytes: &[u8], at: usize) -> (v: u64)
    requires
        at + 8 <= bytes@.len(),
    ensures
        v == le_value(bytes@, at as int),
{
    reveal(le_join);
    (bytes[at] as u64) | (bytes[at + 1] as u64) << 8 | (bytes[at + 2] as u64) << 16
        | (bytes[at + 3] as u64) << 24 | (bytes[at + 4] as u64) << 32 | (bytes[at + 5] as u64)
        << 40 | (bytes[at + 6] as u64) << 48 | (bytes[at + 7] as u64) << 56
}

/// Reading back the eight little-endian bytes of `v` gives `v`.
pub proof fn lemma_le_round_trip(v: u64, prefix: Seq<u8>, suffix: Seq<u8>)
    ensures
        le_value(prefix + le_bytes(v) + suffix, prefix.len() as int) == v,
{
    let b = prefix + le_bytes(v) + suffix;
    let at = prefix.len() as int;
    assert(b.subrange(at, at + 8) =~= le_bytes(v));
    assert(b[at] == le_bytes(v)[0]);
    assert(b[at + 1] == le_bytes(v)[1]);
    assert(b[at + 2] == le_bytes(v)[2]);
    assert(b[at + 3] == le_bytes(v)[3]);
    assert(b[at + 4] == le_bytes(v)[4]);
    assert(b[at + 5] == le_bytes(v)[5]);
    assert(b[at + 6] == le_bytes(v)[6]);
    assert(b[at + 7] == le_bytes(v)[7]);
    lemma_le_join(v);
}

/// Joining the eight bytes of `v` gives `v` back.
pub proof fn lemma_le_join(v: u64)
    ensures
        le_join(
            (v & 0xff) as u8,
            ((v >> 8) & 0xff) as u8,
            ((v >> 16) & 0xff) as u8,
            ((v >> 24) & 0xff) as u8,
            ((v >> 32) & 0xff) as u8,
            ((v >> 40) & 0xff) as u8,
            ((v >> 48) & 0xff) as u8,
            ((v >> 56) & 0xff) as u8,
        ) == v,
{
    reveal(le_join);
    assert(((v & 0xff) as u8 as u64) | (((v >> 8) & 0xff) as u8 as u64) << 8 | (((v >> 16) & 0xff)
        as u8 as u64) << 16 | (((v >> 24) & 0xff) as u8 as u64) << 24 | (((v >> 32) & 0xff) as u8
        as u64) << 32 | (((v >> 40) & 0xff) as u8 as u64) << 40 | (((v >> 48) & 0xff) as u8 as u64)
        << 48 | (((v >> 56) & 0xff) as u8 as u64) << 56 == v) by (bit_vector);
}

} // verus!

verus! {

/// The tail that every state snapshot shares: the two counters and the
/// memory section, after `head`.
pub open spec fn counters_and_cells(head: Seq<u8>, cycles: u64, accesses: u64, mem: Seq<u8>) -> Seq<u8> {
    head + le_bytes(cycles) + le_bytes(accesses) + cells(mem)
}

/// Reading a snapshot's counters and memory back gives them again, and the
/// bytes before them are `head`.
pub proof fn lemma_counters_and_cells(head: Seq<u8>, cycles: u64, accesses: u64, mem: Seq<u8>)
    requires
        mem.len() == 256,
    ensures
        ({
            let b = counters_and_cells(head, cycles, accesses, mem);
            &&& b.len() == head.len() + 16 + 512
            &&& b.subrange(0, head.len() as int) == head
            &&& le_value(b, head.len() as int) == cycles
            &&& le_value(b, head.len() + 8int) == accesses
            &&& uncells(b, head.len() + 16int) == mem
        }),
{
    lemma_cells_len(mem);
    let b = counters_and_cells(head, cycles, accesses, mem);
    let t1 = le_bytes(accesses) + cells(mem);
    let h1 = head + le_bytes(cycles);
    let h2 = h1 + le_bytes(accesses);
    assert(b =~= head + (le_bytes(cycles) + t1));
    assert(b =~= h1 + t1);
    assert(b =~= h2 + cells(mem));
    assert(b.subrange(0, head.len() as int) =~= head);
    lemma_le_round_trip(cycles, head, t1);
    assert(head + le_bytes(cycles) + t1 == b);
    lemma_le_round_trip(accesses, h1, cells(mem));
    assert(h1 + le_bytes(accesses) + cells(mem) == b);
    lemma_uncells_cells(mem, h2, Seq::empty());
    assert(h2 + cells(mem) + Seq::empty() =~= b);
}

} // verus!

verus! {

/// A stream whose first four bytes are not `header` fails to load with the
/// invalid file error, whatever its length: a file of another machine, or
/// of the other kind, is never taken for one of this kind.
pub proof fn lemma_foreign_header_rejected(bytes: Seq<u8>, header: Seq<u8>, len: nat)
    requires
        bytes.len() >= HEADER_LEN,
        bytes.subrange(0, HEADER_LEN as int) != header,
    ensures
        frame_outcome(bytes, header, len) == Err::<(), LoadError>(LoadError::InvalidFile),
{
}

/// The two kinds of file a machine is saved in, told apart by the file
/// name's extension.
#[derive(Debug, Clone, Copy, PartialEq, Eq)]
pub enum FileKind {
    /// A memory image: extension `mem`.
    Mem,
    /// A full state snapshot: extension `state`.
    State,
}

/// The bytes of the extension of the file name at the end of `path`, as
/// the standard library's path handling finds it.
pub uninterp spec fn extension_of(path: Seq<u8>) -> Option<Seq<u8>>;

/// Relies on `std::path::Path::extension`: the extension of the path's
/// file name, if it has one, as bytes of the path.
#[verifier::external_body]
fn extension(path: &str) -> (r: Option<&[u8]>)
    ensures
        r matches Some(e) ==> extension_of(path.spec_bytes()) == Some(e@),
        r is None ==> extension_of(path.spec_bytes()) is None,
{
    std::path::Path::new(path).extension().map(|e| e.as_encoded_bytes())
}

/// The extension of a memory image: `mem`.
pub open spec fn mem_extension() -> Seq<u8> {
    seq![0x6Du8, 0x65u8, 0x6Du8]
}

/// The extension of a state snapshot: `state`.
pub open spec fn state_extension() -> Seq<u8> {
    seq![0x73u8, 0x74u8, 0x61u8, 0x74u8, 0x65u8]
}

/// The kind of file that `path` names by its extension, if any.
pub open spec fn kind_of(path: Seq<u8>) -> Option<FileKind> {
    if extension_of(path) == Some(mem_extension()) {
        Some(FileKind::Mem)
    } else if extension_of(path) == Some(state_extension()) {
        Some(FileKind::State)
    } else {
        None
    }
}

/// Whether `path` names a memory image file: its extension is `mem`.
pub fn is_mem_file(path: &str) -> (r: bool)
    ensures
        r == (extension_of(path.spec_bytes()) == Some(mem_extension())),
{
    let mem: [u8; 3] = [0x6D, 0x65, 0x6D];
    assert(mem@ =~= mem_extension());
    match extension(path) {
        Some(e) => same_bytes(e, &mem),
        None => false,
    }
}

/// Whether `path` names a state snapshot file: its extension is `state`.
pub fn is_state_file(path: &str) -> (r: bool)
    ensures
        r == (extension_of(path.spec_bytes()) == Some(state_extension())),
{
    let state: [u8; 5] = [0x73, 0x74, 0x61, 0x74, 0x65];
    assert(state@ =~= state_extension());
    match extension(path) {
        Some(e) => same_bytes(e, &state),
        None => false,
    }
}

/// The kind of file that `path` names: a memory image for extension `mem`,
/// a state snapshot for `state`, and none for any other path.
pub fn file_kind(path: &str) -> (r: Option<FileKind>)
    ensures
        r == kind_of(path.spec_bytes()),
{
    if is_mem_file(path) {
        Some(FileKind::Mem)
    } else if is_state_file(path) {
        Some(FileKind::State)
    } else {
        None
    }
}

} // verus!
