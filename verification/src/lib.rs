//! Safe introspection of 64-bit Portable Executable (PE32+) binaries.
//!
//! The library accepts an untrusted byte blob holding a PE image — either in
//! its on-disk file layout or in its loaded, mapped layout — and offers
//! bounds-checked, typed views over its headers, sections and contents.
//! Every address translation is proved to stay inside the blob, and the
//! code-signature pattern engine on top of the views is proved to be a pure
//! function of the blob and the pattern.

pub mod error;
pub mod image;
pub mod pattern;
pub mod pe64;
pub mod util;
