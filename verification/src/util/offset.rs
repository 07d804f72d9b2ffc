//! Wrapping offset arithmetic for the address types.

use vstd::prelude::*;
use vstd::wrapping::u32_specs;
use vstd::wrapping::u64_specs;

verus! {

/// Offset operator for address types: advance an address by `count` records
/// of `size_of` bytes each, with wrapping arithmetic.
pub trait Offset<I>: Sized {
    /// The advanced address, as a spec-level value.
    spec fn spec_offset(self, count: I, size_of: usize) -> Self;

    /// Advances the address by `count` records of `size_of` bytes.
    fn offset(self, count: I, size_of: usize) -> (r: Self)
        ensures
            r == self.spec_offset(count, size_of),
    ;
}

impl Offset<i32> for u32 {
    open spec fn spec_offset(self, count: i32, size_of: usize) -> u32 {
        u32_specs::wrapping_add(self, u32_specs::wrapping_mul(count as u32, size_of as u32))
    }

    fn offset(self, count: i32, size_of: usize) -> (r: u32) {
        self.wrapping_add((count as u32).wrapping_mul(size_of as u32))
    }
}

impl Offset<u32> for u32 {
    open spec fn spec_offset(self, count: u32, size_of: usize) -> u32 {
        u32_specs::wrapping_add(self, u32_specs::wrapping_mul(count, size_of as u32))
    }

    fn offset(self, count: u32, size_of: usize) -> (r: u32) {
        self.wrapping_add(count.wrapping_mul(size_of as u32))
    }
}

impl Offset<isize> for u32 {
    open spec fn spec_offset(self, count: isize, size_of: usize) -> u32 {
        u32_specs::wrapping_add(self, u32_specs::wrapping_mul(count as u32, size_of as u32))
    }

    fn offset(self, count: isize, size_of: usize) -> (r: u32) {
        self.wrapping_add((count as u32).wrapping_mul(size_of as u32))
    }
}

impl Offset<usize> for u32 {
    open spec fn spec_offset(self, count: usize, size_of: usize) -> u32 {
        u32_specs::wrapping_add(self, u32_specs::wrapping_mul(count as u32, size_of as u32))
    }

    fn offset(self, count: usize, size_of: usize) -> (r: u32) {
        self.wrapping_add((count as u32).wrapping_mul(size_of as u32))
    }
}

impl Offset<i32> for u64 {
    open spec fn spec_offset(self, count: i32, size_of: usize) -> u64 {
        u64_specs::wrapping_add(self, u64_specs::wrapping_mul(count as u64, size_of as u64))
    }

    fn offset(self, count: i32, size_of: usize) -> (r: u64) {
        self.wrapping_add((count as u64).wrapping_mul(size_of as u64))
    }
}

impl Offset<u32> for u64 {
    open spec fn spec_offset(self, count: u32, size_of: usize) -> u64 {
        u64_specs::wrapping_add(self, u64_specs::wrapping_mul(count as u64, size_of as u64))
    }

    fn offset(self, count: u32, size_of: usize) -> (r: u64) {
        self.wrapping_add((count as u64).wrapping_mul(size_of as u64))
    }
}

impl Offset<i64> for u64 {
    open spec fn spec_offset(self, count: i64, size_of: usize) -> u64 {
        u64_specs::wrapping_add(self, u64_specs::wrapping_mul(count as u64, size_of as u64))
    }

    fn offset(self, count: i64, size_of: usize) -> (r: u64) {
        self.wrapping_add((count as u64).wrapping_mul(size_of as u64))
    }
}

impl Offset<u64> for u64 {
    open spec fn spec_offset(self, count: u64, size_of: usize) -> u64 {
        u64_specs::wrapping_add(self, u64_specs::wrapping_mul(count, size_of as u64))
    }

    fn offset(self, count: u64, size_of: usize) -> (r: u64) {
        self.wrapping_add(count.wrapping_mul(size_of as u64))
    }
}

impl Offset<isize> for u64 {
    open spec fn spec_offset(self, count: isize, size_of: usize) -> u64 {
        u64_specs::wrapping_add(self, u64_specs::wrapping_mul(count as u64, size_of as u64))
    }

    fn offset(self, count: isize, size_of: usize) -> (r: u64) {
        self.wrapping_add((count as u64).wrapping_mul(size_of as u64))
    }
}

impl Offset<usize> for u64 {
    open spec fn spec_offset(self, count: usize, size_of: usize) -> u64 {
        u64_specs::wrapping_add(self, u64_specs::wrapping_mul(count as u64, size_of as u64))
    }

    fn offset(self, count: usize, size_of: usize) -> (r: u64) {
        self.wrapping_add((count as u64).wrapping_mul(size_of as u64))
    }
}

} // verus!
