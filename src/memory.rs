//! Pieces shared by the machines' memory and counters.
use vstd::prelude::*;

verus! {

/// The access counter after one more accounted access: it stops at the
/// largest value instead of wrapping.
pub open spec fn bump(n: u64) -> u64 {
    if n == u64::MAX {
        n
    } else {
        (n + 1) as u64
    }
}

/// `a + 1`, wrapping from 255 to 0: the next address.
pub open spec fn next_addr(a: u8) -> u8 {
    ((a + 1) % 256) as u8
}

/// Whether two byte strings are equal.
pub fn same_bytes(a: &[u8], b: &[u8]) -> (r: bool)
    ensures
        r == (a@ == b@),
{
    if a.len() != b.len() {
        return false;
    }
    let mut i: usize = 0;
    while i < a.len()
        invariant
            i <= a@.len(),
            a@.len() == b@.len(),
            forall|j: int| 0 <= j < i ==> a@[j] == b@[j],
        decreases a@.len() - i,
    {
        if a[i] != b[i] {
            return false;
        }
        i = i + 1;
    }
    assert(a@ =~= b@);
    true
}

/// The byte that stores a flag: 1 when set, 0 when clear.
pub open spec fn flag_byte(f: bool) -> u8 {
    if f {
        1
    } else {
        0
    }
}

/// The byte that stores a flag.
pub fn flag_to_byte(f: bool) -> (b: u8)
    ensures
        b == flag_byte(f),
{
    if f {
        1
    } else {
        0
    }
}

} // verus!

verus! {

/// The two's-complement value of a byte.
pub open spec fn signed(b: u8) -> int {
    if b < 128 {
        b as int
    } else {
        b - 256
    }
}

/// The two's-complement value of a byte.
pub fn to_signed(b: u8) -> (r: i16)
    ensures
        r == signed(b),
{
    if b < 128 {
        b as i16
    } else {
        b as i16 - 256
    }
}

} // verus!
