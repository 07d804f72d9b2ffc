//! 64-bit (PE32+) images: header validation, the `Pe` view contract, the
//! file and mapped views, and the code scanner.

pub mod file;
pub mod headers;
pub mod pe;
pub mod scanner;
pub mod view;

pub use file::PeFile;
pub use pe::Pe;
pub use scanner::Scanner;
pub use view::PeView;

use vstd::prelude::*;

verus! {

/// A relative virtual address: an offset from the image base.
pub type Rva = u32;

/// A virtual address as the loader sees it.
pub type Va = u64;

/// An offset into the raw image blob.
pub type FileOffset = usize;

/// A VA that carries the type it points at; following it goes through a
/// view's `read`, so the target is bounds-checked like any other address.
pub struct Ptr<T> {
    /// The virtual address of the target.
    pub va: Va,
    /// Carries the target type.
    pub marker: core::marker::PhantomData<T>,
}

impl<T> Ptr<T> {
    /// A typed pointer to the given VA.
    pub fn new(va: Va) -> (r: Ptr<T>)
        ensures
            r.va == va,
    {
        Ptr { va, marker: core::marker::PhantomData }
    }
}

/// The reserved null RVA.
pub const BADRVA: Rva = 0;

/// The reserved null VA.
pub const BADVA: Va = 0;

} // verus!
