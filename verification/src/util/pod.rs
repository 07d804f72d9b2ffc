//! Plain-old-data records: types that can be read from any byte pattern of
//! their size.

use vstd::prelude::*;

use crate::util::le16;
use crate::util::le32;
use crate::util::le64;
use crate::util::read_le16;
use crate::util::read_le32;
use crate::util::read_le64;
use vstd::slice::slice_index_get;

verus! {

/// Types which can be read from any byte pattern of sufficient length.
///
/// Records which are read out of PE images implement this. `spec_read`
/// states the value of the record as a function of its first `spec_size`
/// bytes, in the image's little-endian layout.
pub trait Pod: Sized {
    /// The byte size of the record.
    spec fn spec_size() -> int;

    /// The alignment the record asks of its storage offset.
    spec fn spec_align() -> int;

    /// The record the first `spec_size()` bytes of `b` hold.
    spec fn spec_read(b: Seq<u8>) -> Self;

    /// The byte size of the record.
    fn pod_size() -> (r: usize)
        ensures
            r == Self::spec_size(),
    ;

    /// The alignment the record asks of its storage offset.
    fn pod_align() -> (r: usize)
        ensures
            r == Self::spec_align(),
            r == 1 || r == 2 || r == 4 || r == 8,
    ;

    /// Reads the record from the front of `b`.
    fn read_from(b: &[u8]) -> (r: Self)
        requires
            Self::spec_size() <= b@.len(),
        ensures
            r == Self::spec_read(b@),
    ;
}

impl Pod for u8 {
    open spec fn spec_size() -> int {
        1
    }

    open spec fn spec_align() -> int {
        1
    }

    open spec fn spec_read(b: Seq<u8>) -> u8 {
        b[0]
    }

    fn pod_size() -> usize {
        1
    }

    fn pod_align() -> usize {
        1
    }

    fn read_from(b: &[u8]) -> u8 {
        *slice_index_get(b, 0)
    }
}

impl Pod for u16 {
    open spec fn spec_size() -> int {
        2
    }

    open spec fn spec_align() -> int {
        2
    }

    open spec fn spec_read(b: Seq<u8>) -> u16 {
        le16(b, 0) as u16
    }

    fn pod_size() -> usize {
        2
    }

    fn pod_align() -> usize {
        2
    }

    fn read_from(b: &[u8]) -> u16 {
        read_le16(b, 0)
    }
}

impl Pod for u32 {
    open spec fn spec_size() -> int {
        4
    }

    open spec fn spec_align() -> int {
        4
    }

    open spec fn spec_read(b: Seq<u8>) -> u32 {
        le32(b, 0) as u32
    }

    fn pod_size() -> usize {
        4
    }

    fn pod_align() -> usize {
        4
    }

    fn read_from(b: &[u8]) -> u32 {
        read_le32(b, 0)
    }
}

impl Pod for u64 {
    open spec fn spec_size() -> int {
        8
    }

    open spec fn spec_align() -> int {
        8
    }

    open spec fn spec_read(b: Seq<u8>) -> u64 {
        le64(b, 0) as u64
    }

    fn pod_size() -> usize {
        8
    }

    fn pod_align() -> usize {
        8
    }

    fn read_from(b: &[u8]) -> u64 {
        read_le64(b, 0)
    }
}

impl Pod for i8 {
    open spec fn spec_size() -> int {
        1
    }

    open spec fn spec_align() -> int {
        1
    }

    open spec fn spec_read(b: Seq<u8>) -> i8 {
        b[0] as i8
    }

    fn pod_size() -> usize {
        1
    }

    fn pod_align() -> usize {
        1
    }

    fn read_from(b: &[u8]) -> i8 {
        *slice_index_get(b, 0) as i8
    }
}

impl Pod for i16 {
    open spec fn spec_size() -> int {
        2
    }

    open spec fn spec_align() -> int {
        2
    }

    open spec fn spec_read(b: Seq<u8>) -> i16 {
        le16(b, 0) as i16
    }

    fn pod_size() -> usize {
        2
    }

    fn pod_align() -> usize {
        2
    }

    fn read_from(b: &[u8]) -> i16 {
        read_le16(b, 0) as i16
    }
}

impl Pod for i32 {
    open spec fn spec_size() -> int {
        4
    }

    open spec fn spec_align() -> int {
        4
    }

    open spec fn spec_read(b: Seq<u8>) -> i32 {
        le32(b, 0) as i32
    }

    fn pod_size() -> usize {
        4
    }

    fn pod_align() -> usize {
        4
    }

    fn read_from(b: &[u8]) -> i32 {
        read_le32(b, 0) as i32
    }
}

impl Pod for i64 {
    open spec fn spec_size() -> int {
        8
    }

    open spec fn spec_align() -> int {
        8
    }

    open spec fn spec_read(b: Seq<u8>) -> i64 {
        le64(b, 0) as i64
    }

    fn pod_size() -> usize {
        8
    }

    fn pod_align() -> usize {
        8
    }

    fn read_from(b: &[u8]) -> i64 {
        read_le64(b, 0) as i64
    }
}

} // verus!
