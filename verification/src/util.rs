//! Utilities: little-endian field readers, nul-terminated string slicing and
//! the split-at-predicate helper they are built on.

pub mod offset;
pub mod pod;

pub use offset::Offset;
pub use pod::Pod;

use vstd::prelude::*;
use vstd::slice::slice_index_get;
use vstd::slice::slice_subrange;

verus! {

/// The value of the little-endian 16-bit field at `off`.
pub open spec fn le16(b: Seq<u8>, off: int) -> int {
    b[off] + b[off + 1] * 0x100
}

/// The value of the little-endian 32-bit field at `off`.
pub open spec fn le32(b: Seq<u8>, off: int) -> int {
    b[off] + b[off + 1] * 0x100 + b[off + 2] * 0x10000 + b[off + 3] * 0x1000000
}

/// The value of the little-endian 64-bit field at `off`.
pub open spec fn le64(b: Seq<u8>, off: int) -> int {
    le32(b, off) + le32(b, off + 4) * 0x100000000
}

/// Reads the little-endian 16-bit field at `off`.
pub fn read_le16(b: &[u8], off: usize) -> (r: u16)
    requires
        off + 2 <= b@.len(),
    ensures
        r == le16(b@, off as int),
{
    let n: usize = b.len();
    proof {
        assert(off + 2 <= n);
    }
    let b0: u16 = *slice_index_get(b, off) as u16;
    let b1: u16 = *slice_index_get(b, off + 1) as u16;
    b0 + b1 * 0x100
}

/// Reads the little-endian 32-bit field at `off`.
pub fn read_le32(b: &[u8], off: usize) -> (r: u32)
    requires
        off + 4 <= b@.len(),
    ensures
        r == le32(b@, off as int),
{
    let n: usize = b.len();
    proof {
        assert(off + 4 <= n);
    }
    let b0: u32 = *slice_index_get(b, off) as u32;
    let b1: u32 = *slice_index_get(b, off + 1) as u32;
    let b2: u32 = *slice_index_get(b, off + 2) as u32;
    let b3: u32 = *slice_index_get(b, off + 3) as u32;
    b0 + b1 * 0x100 + b2 * 0x10000 + b3 * 0x1000000
}

/// Reads the little-endian 64-bit field at `off`.
pub fn read_le64(b: &[u8], off: usize) -> (r: u64)
    requires
        off + 8 <= b@.len(),
    ensures
        r == le64(b@, off as int),
{
    let n: usize = b.len();
    proof {
        assert(off + 8 <= n);
    }
    let lo: u64 = read_le32(b, off) as u64;
    let hi: u64 = read_le32(b, off + 4) as u64;
    lo + hi * 0x100000000
}

/// Holds when `(pre, post)` split `s` at `i`, the first place where `f`
/// answers true (or at the end, when it never does).
pub open spec fn split_parts<T, F: Fn(&T) -> bool>(
    s: Seq<T>,
    f: F,
    pre: Seq<T>,
    post: Seq<T>,
    i: int,
) -> bool {
    &&& 0 <= i <= s.len()
    &&& pre == s.subrange(0, i)
    &&& post == s.subrange(i, s.len() as int)
    &&& forall|j: int| 0 <= j < i ==> call_ensures(f, (&s[j],), false)
    &&& (i < s.len() ==> call_ensures(f, (&s[i],), true))
}

/// Splits a slice at the point defined by the callback.
pub(crate) fn split_f<T, F: Fn(&T) -> bool>(slice: &[T], f: F) -> (r: (&[T], &[T]))
    requires
        forall|j: int| 0 <= j < slice@.len() ==> #[trigger] call_requires(f, (&slice@[j],)),
    ensures
        exists|i: int| split_parts(slice@, f, r.0@, r.1@, i),
{
    let n: usize = slice.len();
    let mut i: usize = 0;
    while i < n
        invariant
            n == slice@.len(),
            0 <= i <= n,
            forall|j: int| 0 <= j < slice@.len() ==> #[trigger] call_requires(f, (&slice@[j],)),
            forall|j: int| 0 <= j < i ==> call_ensures(f, (&slice@[j],), false),
        decreases n - i,
    {
        if f(slice_index_get(slice, i)) {
            let r = (slice_subrange(slice, 0, i), slice_subrange(slice, i, n));
            proof {
                assert(split_parts(slice@, f, r.0@, r.1@, i as int));
            }
            return r;
        }
        i += 1;
    }
    let r = (slice_subrange(slice, 0, n), slice_subrange(slice, n, n));
    proof {
        assert(split_parts(slice@, f, r.0@, r.1@, n as int));
    }
    r
}

/// The index of the first nul byte of `s`, or `s.len()` if there is none.
pub open spec fn nul_pos(s: Seq<u8>) -> int
    decreases s.len(),
{
    if s.len() == 0 {
        0
    } else if s[0] == 0 {
        0
    } else {
        1 + nul_pos(s.drop_first())
    }
}

/// The index of the first nul word of `s`, or `s.len()` if there is none.
pub open spec fn wide_nul_pos(s: Seq<u16>) -> int
    decreases s.len(),
{
    if s.len() == 0 {
        0
    } else if s[0] == 0 {
        0
    } else {
        1 + wide_nul_pos(s.drop_first())
    }
}

/// `nul_pos` is the unique split point: everything before it is non-nul and
/// it either indexes a nul byte or is the length.
pub proof fn lemma_nul_pos_is(s: Seq<u8>, i: int)
    requires
        0 <= i <= s.len(),
        forall|j: int| 0 <= j < i ==> s[j] != 0,
        i < s.len() ==> s[i] == 0,
    ensures
        nul_pos(s) == i,
    decreases s.len(),
{
    if s.len() != 0 && s[0] != 0 {
        lemma_nul_pos_is(s.drop_first(), i - 1);
    }
}

/// As `lemma_nul_pos_is`, for wide strings.
pub proof fn lemma_wide_nul_pos_is(s: Seq<u16>, i: int)
    requires
        0 <= i <= s.len(),
        forall|j: int| 0 <= j < i ==> s[j] != 0,
        i < s.len() ==> s[i] == 0,
    ensures
        wide_nul_pos(s) == i,
    decreases s.len(),
{
    if s.len() != 0 && s[0] != 0 {
        lemma_wide_nul_pos_is(s.drop_first(), i - 1);
    }
}

/// Reads an optionally nul-terminated string from a byte buffer.
///
/// Returns the slice split before the nul byte, and the whole slice if no
/// nul byte is found.
pub fn strn(buf: &[u8]) -> (r: &[u8])
    ensures
        r@ == buf@.subrange(0, nul_pos(buf@)),
{
    let is_nul = |b: &u8| -> (r: bool)
        ensures
            r == (*b == 0),
        { *b == 0 };
    let parts = split_f(buf, is_nul);
    proof {
        let i = choose|i: int| split_parts(buf@, is_nul, parts.0@, parts.1@, i);
        lemma_nul_pos_is(buf@, i);
    }
    parts.0
}

/// Reads an optionally nul-terminated wide-character string from a buffer.
///
/// Returns the slice split before the nul word, and the whole slice if no
/// nul word is found.
pub fn wstrn(buf: &[u16]) -> (r: &[u16])
    ensures
        r@ == buf@.subrange(0, wide_nul_pos(buf@)),
{
    let is_nul = |w: &u16| -> (r: bool)
        ensures
            r == (*w == 0),
        { *w == 0 };
    let parts = split_f(buf, is_nul);
    proof {
        let i = choose|i: int| split_parts(buf@, is_nul, parts.0@, parts.1@, i);
        lemma_wide_nul_pos_is(buf@, i);
    }
    parts.0
}

} // verus!
