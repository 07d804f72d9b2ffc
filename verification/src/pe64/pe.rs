//! The view contract every PE32+ view offers, and the typed accessors
//! built on top of its two primitives, `slice` and `read`.

use vstd::prelude::*;
use vstd::slice::slice_subrange;

use crate::error::Error;
use crate::image::ImageDataDirectory;
use crate::image::ImageExportDirectory;
use crate::image::ImageOptionalHeader64;
use crate::image::ImageSectionHeader;
use crate::pe64::headers::lemma_validate_ok;
use crate::pe64::headers::section_header_at;
use crate::pe64::headers::spec_image_base;
use crate::pe64::headers::spec_number_of_sections;
use crate::pe64::headers::spec_optional_header;
use crate::pe64::headers::spec_sections;
use crate::pe64::headers::spec_size_of_image;
use crate::pe64::headers::spec_validate;
use crate::util::read_le32;
use crate::util::nul_pos;
use crate::util::lemma_nul_pos_is;
use crate::util::split_f;
use crate::util::split_parts;
use crate::util::Pod;

verus! {

/// The polymorphic view contract over a PE32+ image.
///
/// A view is a cheap value holding the image bytes; the two primitives
/// resolve an RVA or a VA to a byte range of the blob, and everything else
/// is built on them. `spec_slice` is the model of resolution: either the
/// backing range `(start, end)` of the blob, or the error, for every
/// request.
pub trait Pe: Sized {
    /// The underlying image bytes.
    spec fn spec_image(&self) -> Seq<u8>;

    /// The model of `slice`: the backing byte range of the blob that the
    /// request resolves to, or the error it is refused with.
    spec fn spec_slice(&self, rva: u32, min_size: int, align: int) -> Result<(int, int), Error>;

    /// The exclusive upper bound, in RVA space, of everything the view can
    /// serve.
    spec fn spec_extent(&self) -> int;

    /// Every successful resolution stays inside the blob, serves at least
    /// the requested size, honours the alignment, rejects the null RVA, and
    /// stays under the view's extent.
    proof fn lemma_slice_ok(&self, rva: u32, min_size: int, align: int)
        requires
            spec_validate(self.spec_image()) is Ok,
            self.spec_slice(rva, min_size, align) is Ok,
            align == 1 || align == 2 || align == 4 || align == 8,
        ensures
            ({
                let (o, e) = self.spec_slice(rva, min_size, align)->Ok_0;
                &&& 0 <= o <= e <= self.spec_image().len()
                &&& e - o >= min_size
                &&& o % align == 0
                &&& rva != 0
                &&& rva + min_size <= self.spec_extent()
            }),
    ;

    /// The declared image size never exceeds the view's extent.
    proof fn lemma_size_extent(&self)
        requires
            spec_validate(self.spec_image()) is Ok,
        ensures
            spec_size_of_image(self.spec_image()) <= self.spec_extent(),
    ;

    /// Resolution depends on the image bytes alone: two views over equal
    /// blobs resolve every request alike.
    proof fn lemma_slice_pure(&self, other: &Self, rva: u32, min_size: int, align: int)
        requires
            self.spec_image() == other.spec_image(),
        ensures
            self.spec_slice(rva, min_size, align) == other.spec_slice(rva, min_size, align),
            self.spec_extent() == other.spec_extent(),
    ;

    /// The underlying image.
    fn image(&self) -> (r: &[u8])
        ensures
            r@ == self.spec_image(),
    ;

    /// Resolves an RVA to a slice of at least `min_size` bytes whose
    /// backing offset is a multiple of `align`.
    fn slice(&self, rva: u32, min_size: usize, align: usize) -> (r: Result<&[u8], Error>)
        requires
            spec_validate(self.spec_image()) is Ok,
            align == 1 || align == 2 || align == 4 || align == 8,
        ensures
            (match (r, self.spec_slice(rva, min_size as int, align as int)) {
                (Ok(s), Ok(oe)) => s@ == self.spec_image().subrange(oe.0, oe.1),
                (Err(e1), Err(e2)) => e1 == e2,
                _ => false,
            }),
    ;

    /// Resolves a VA, against the declared image base, to a slice of at
    /// least `min_size` bytes: null is rejected, the VA is range-checked
    /// against the declared image, and the remaining RVA is resolved as
    /// `slice` resolves it.
    fn read(&self, va: u64, min_size: usize, align: usize) -> (r: Result<&[u8], Error>)
        requires
            spec_validate(self.spec_image()) is Ok,
            align == 1 || align == 2 || align == 4 || align == 8,
        ensures
            ({
                let base = spec_image_base(self.spec_image());
                let size = spec_size_of_image(self.spec_image());
                let model: Result<(int, int), Error> = if va == 0 {
                    Err(Error::Null)
                } else if va < base || va - base > size {
                    Err(Error::OOB)
                } else {
                    self.spec_slice((va - base) as u32, min_size as int, align as int)
                };
                match (r, model) {
                    (Ok(s), Ok(oe)) => s@ == self.spec_image().subrange(oe.0, oe.1),
                    (Err(e1), Err(e2)) => e1 == e2,
                    _ => false,
                }
            }),
    ;
}

/// The model of `read`: reject null, range-check the VA against the
/// declared image, then resolve the remaining RVA.
pub open spec fn spec_read_at<P: Pe>(pe: P, va: u64, min_size: int, align: int) -> Result<
    (int, int),
    Error,
> {
    let base = spec_image_base(pe.spec_image());
    let size = spec_size_of_image(pe.spec_image());
    if va == 0 {
        Err(Error::Null)
    } else if va < base || va - base > size {
        Err(Error::OOB)
    } else {
        pe.spec_slice((va - base) as u32, min_size, align)
    }
}

/// The model of `rva_to_va`: pure arithmetic against the image base, with
/// range and overflow checks.
pub open spec fn spec_rva_to_va<P: Pe>(pe: P, rva: u32) -> Result<u64, Error> {
    let base = spec_image_base(pe.spec_image());
    let size = spec_size_of_image(pe.spec_image());
    if rva >= size {
        Err(Error::OOB)
    } else if base + rva > u64::MAX {
        Err(Error::Overflow)
    } else {
        Ok((base + rva) as u64)
    }
}

/// The model of `va_to_rva`: pure arithmetic against the image base, with
/// a range check against the declared image size.
pub open spec fn spec_va_to_rva<P: Pe>(pe: P, va: u64) -> Result<u32, Error> {
    let base = spec_image_base(pe.spec_image());
    let size = spec_size_of_image(pe.spec_image());
    if va < base || va - base >= size {
        Err(Error::OOB)
    } else {
        Ok((va - base) as u32)
    }
}

/// Converts an RVA to the VA it has once the image is loaded at its
/// declared base.
pub fn rva_to_va<P: Pe>(pe: &P, rva: u32) -> (r: Result<u64, Error>)
    requires
        spec_validate(pe.spec_image()) is Ok,
    ensures
        r == spec_rva_to_va(*pe, rva),
{
    let image = pe.image();
    proof {
        lemma_validate_ok(pe.spec_image());
    }
    let base = read_image_base(image);
    let size = read_size_of_image_pe(image);
    if rva >= size {
        Err(Error::OOB)
    } else if base > u64::MAX - rva as u64 {
        Err(Error::Overflow)
    } else {
        Ok(base + rva as u64)
    }
}

/// Converts a VA back to the RVA it has relative to the declared base.
pub fn va_to_rva<P: Pe>(pe: &P, va: u64) -> (r: Result<u32, Error>)
    requires
        spec_validate(pe.spec_image()) is Ok,
    ensures
        r == spec_va_to_rva(*pe, va),
{
    let image = pe.image();
    proof {
        lemma_validate_ok(pe.spec_image());
    }
    let base = read_image_base(image);
    let size = read_size_of_image_pe(image);
    if va < base || va - base >= size as u64 {
        Err(Error::OOB)
    } else {
        Ok((va - base) as u32)
    }
}

/// The two address conversions are inverse: whenever an RVA converts to a
/// VA, that VA converts back to the same RVA.
pub proof fn lemma_va_rva_inverse<P: Pe>(pe: P, rva: u32)
    requires
        spec_rva_to_va(pe, rva) is Ok,
    ensures
        spec_va_to_rva(pe, spec_rva_to_va(pe, rva)->Ok_0) == Ok::<u32, Error>(rva),
{
}

/// The two address conversions are inverse: whenever a VA converts to an
/// RVA, that RVA converts back to the same VA.
pub proof fn lemma_rva_va_inverse<P: Pe>(pe: P, va: u64)
    requires
        spec_va_to_rva(pe, va) is Ok,
    ensures
        spec_rva_to_va(pe, spec_va_to_rva(pe, va)->Ok_0) == Ok::<u64, Error>(va),
{
}

/// Reads the declared image base out of a validated blob.
pub(crate) fn read_image_base(image: &[u8]) -> (r: u64)
    requires
        crate::pe64::headers::spec_validate_prefix_ok(image@),
    ensures
        r == spec_image_base(image@),
{
    let n = image.len();
    let p = crate::pe64::headers::read_e_lfanew(image) as usize;
    crate::util::read_le64(image, p + 48)
}

/// Reads the declared size of the loaded image out of a validated blob.
pub(crate) fn read_size_of_image_pe(image: &[u8]) -> (r: u32)
    requires
        crate::pe64::headers::spec_validate_prefix_ok(image@),
    ensures
        r == spec_size_of_image(image@),
{
    let n = image.len();
    let p = crate::pe64::headers::read_e_lfanew(image) as usize;
    crate::util::read_le32(image, p + 80)
}

/// The parsed optional header of the view's image.
#[verifier::rlimit(50)]
pub fn optional_header<P: Pe>(pe: &P) -> (r: ImageOptionalHeader64)
    requires
        spec_validate(pe.spec_image()) is Ok,
    ensures
        r == spec_optional_header(pe.spec_image()),
{
    let image = pe.image();
    proof {
        lemma_validate_ok(pe.spec_image());
    }
    let n = image.len();
    let p = crate::pe64::headers::read_e_lfanew(image) as usize;
    ImageOptionalHeader64::read_from(slice_subrange(image, p + 24, p + 136))
}

/// The parsed section table of the view's image, in on-disk order.
pub fn section_headers<P: Pe>(pe: &P) -> (r: Vec<ImageSectionHeader>)
    requires
        spec_validate(pe.spec_image()) is Ok,
    ensures
        r@ == spec_sections(pe.spec_image()),
{
    let image = pe.image();
    proof {
        lemma_validate_ok(pe.spec_image());
    }
    let count = crate::pe64::headers::read_number_of_sections(image);
    let mut r: Vec<ImageSectionHeader> = Vec::new();
    let mut i: usize = 0;
    while i < count
        invariant
            spec_validate(image@) is Ok,
            image@ == pe.spec_image(),
            count == spec_number_of_sections(image@),
            0 <= i <= count,
            r@.len() == i,
            forall|j: int| 0 <= j < i ==> r@[j] == spec_section_of(image@, j),
        decreases count - i,
    {
        let s = section_header_at(image, i);
        r.push(s);
        i += 1;
    }
    proof {
        assert(r@ =~= spec_sections(pe.spec_image()));
    }
    r
}

/// Row `i` of the section table, as the header model states it.
pub open spec fn spec_section_of(img: Seq<u8>, i: int) -> ImageSectionHeader {
    crate::pe64::headers::spec_section(img, i)
}

/// Slot `i` of the data-directory table.
pub open spec fn spec_data_directory(img: Seq<u8>, i: int) -> ImageDataDirectory {
    ImageDataDirectory::spec_read(
        img.subrange(
            crate::pe64::headers::spec_e_lfanew(img) + 136 + i * 8,
            crate::pe64::headers::spec_e_lfanew(img) + 136 + i * 8 + 8,
        ),
    )
}

/// The declared slots of the data-directory table, in on-disk order.
#[verifier::rlimit(50)]
pub fn data_directory<P: Pe>(pe: &P) -> (r: Vec<ImageDataDirectory>)
    requires
        spec_validate(pe.spec_image()) is Ok,
    ensures
        r@.len() == crate::pe64::headers::spec_number_of_rva_and_sizes(pe.spec_image()),
        forall|j: int| 0 <= j < r@.len() ==> r@[j] == spec_data_directory(pe.spec_image(), j),
{
    let image = pe.image();
    proof {
        lemma_validate_ok(pe.spec_image());
    }
    let n = image.len();
    let p = crate::pe64::headers::read_e_lfanew(image) as usize;
    let count = read_le32(image, p + 132) as usize;
    let mut r: Vec<ImageDataDirectory> = Vec::new();
    let mut i: usize = 0;
    while i < count
        invariant
            image@ == pe.spec_image(),
            crate::pe64::headers::spec_validate_prefix_ok(image@),
            n == image@.len(),
            p == crate::pe64::headers::spec_e_lfanew(image@),
            count == crate::pe64::headers::spec_number_of_rva_and_sizes(image@),
            0 <= i <= count,
            r@.len() == i,
            forall|j: int| 0 <= j < i ==> r@[j] == spec_data_directory(image@, j),
        decreases count - i,
    {
        let off = p + 136 + i * 8;
        let d = ImageDataDirectory::read_from(slice_subrange(image, off, off + 8));
        r.push(d);
        i += 1;
    }
    r
}

/// The verdict of `exports`: a directory whose slot is empty is reported
/// as `Null`, anything else resolves like a typed read at its RVA.
pub open spec fn spec_exports<P: Pe>(pe: P) -> Result<ImageExportDirectory, Error> {
    let d = spec_data_directory(pe.spec_image(), crate::image::IMAGE_DIRECTORY_ENTRY_EXPORT as int);
    if d.VirtualAddress == 0 {
        Err(Error::Null)
    } else {
        match pe.spec_slice(
            d.VirtualAddress,
            ImageExportDirectory::spec_size(),
            ImageExportDirectory::spec_align(),
        ) {
            Ok(oe) => Ok(ImageExportDirectory::spec_read(pe.spec_image().subrange(oe.0, oe.1))),
            Err(e) => Err(e),
        }
    }
}

/// The export directory of the image, when its data-directory slot names
/// one.
pub fn exports<P: Pe>(pe: &P) -> (r: Result<ImageExportDirectory, Error>)
    requires
        spec_validate(pe.spec_image()) is Ok,
    ensures
        r == spec_exports(*pe),
{
    let image = pe.image();
    proof {
        lemma_validate_ok(pe.spec_image());
    }
    let n = image.len();
    let p = crate::pe64::headers::read_e_lfanew(image) as usize;
    let off = p + 136 + crate::image::IMAGE_DIRECTORY_ENTRY_EXPORT * 8;
    let d = ImageDataDirectory::read_from(slice_subrange(image, off, off + 8));
    if d.VirtualAddress == 0 {
        Err(Error::Null)
    } else {
        derva::<ImageExportDirectory, P>(pe, d.VirtualAddress)
    }
}

/// Reads the typed record at an RVA.
pub fn derva<T: Pod, P: Pe>(pe: &P, rva: u32) -> (r: Result<T, Error>)
    requires
        spec_validate(pe.spec_image()) is Ok,
    ensures
        (match (r, pe.spec_slice(rva, T::spec_size(), T::spec_align())) {
            (Ok(v), Ok(oe)) => v == T::spec_read(pe.spec_image().subrange(oe.0, oe.1)),
            (Err(e1), Err(e2)) => e1 == e2,
            _ => false,
        }),
{
    match pe.slice(rva, T::pod_size(), T::pod_align()) {
        Ok(s) => {
            proof {
                pe.lemma_slice_ok(rva, T::spec_size(), T::spec_align());
            }
            Ok(T::read_from(s))
        },
        Err(e) => Err(e),
    }
}

/// Follows a typed VA pointer and reads the record at its target.
pub fn deref<T: Pod, P: Pe>(pe: &P, ptr: crate::pe64::Ptr<T>) -> (r: Result<T, Error>)
    requires
        spec_validate(pe.spec_image()) is Ok,
    ensures
        (match (r, spec_read_at(*pe, ptr.va, T::spec_size(), T::spec_align())) {
            (Ok(v), Ok(oe)) => v == T::spec_read(pe.spec_image().subrange(oe.0, oe.1)),
            (Err(e1), Err(e2)) => e1 == e2,
            _ => false,
        }),
{
    match pe.read(ptr.va, T::pod_size(), T::pod_align()) {
        Ok(s) => {
            proof {
                let base = spec_image_base(pe.spec_image());
                pe.lemma_slice_ok((ptr.va - base) as u32, T::spec_size(), T::spec_align());
            }
            Ok(T::read_from(s))
        },
        Err(e) => Err(e),
    }
}

/// Reads `count` typed records laid out contiguously at an RVA.
pub fn derva_slice<T: Pod, P: Pe>(pe: &P, rva: u32, count: usize) -> (r: Result<Vec<T>, Error>)
    requires
        spec_validate(pe.spec_image()) is Ok,
    ensures
        (match r {
            Ok(v) => {
                &&& T::spec_size() * count <= usize::MAX
                &&& pe.spec_slice(rva, T::spec_size() * count, T::spec_align()) is Ok
                &&& v@.len() == count
                &&& (forall|k: int|
                    0 <= k < count ==> v@[k] == T::spec_read(
                        pe.spec_image().subrange(
                            pe.spec_slice(rva, T::spec_size() * count, T::spec_align())->Ok_0.0
                                + k * T::spec_size(),
                            pe.spec_slice(rva, T::spec_size() * count, T::spec_align())->Ok_0.0 + (
                            k + 1) * T::spec_size(),
                        ),
                    ))
            },
            Err(e) => {
                ||| T::spec_size() * count > usize::MAX && e == Error::Overflow
                ||| T::spec_size() * count <= usize::MAX && pe.spec_slice(
                    rva,
                    T::spec_size() * count,
                    T::spec_align(),
                ) == Err::<(int, int), Error>(e)
            },
        }),
{
    let size = T::pod_size();
    let total = match size.checked_mul(count) {
        Some(t) => t,
        None => {
            return Err(Error::Overflow);
        },
    };
    match pe.slice(rva, total, T::pod_align()) {
        Ok(s) => {
            proof {
                pe.lemma_slice_ok(rva, total as int, T::spec_align());
            }
            let ghost o = pe.spec_slice(rva, T::spec_size() * count, T::spec_align())->Ok_0.0;
            let mut v: Vec<T> = Vec::new();
            let mut k: usize = 0;
            while k < count
                invariant
                    size == T::spec_size(),
                    total == size * count,
                    s@.len() >= total,
                    s@ == pe.spec_image().subrange(
                        o,
                        pe.spec_slice(rva, T::spec_size() * count, T::spec_align())->Ok_0.1,
                    ),
                    pe.spec_slice(rva, T::spec_size() * count, T::spec_align()) is Ok,
                    o == pe.spec_slice(rva, T::spec_size() * count, T::spec_align())->Ok_0.0,
                    0 <= o <= pe.spec_slice(rva, T::spec_size() * count, T::spec_align())->Ok_0.1
                        <= pe.spec_image().len(),
                    0 <= k <= count,
                    v@.len() == k,
                    forall|j: int|
                        0 <= j < k ==> v@[j] == T::spec_read(
                            pe.spec_image().subrange(o + j * size, o + (j + 1) * size),
                        ),
                decreases count - k,
            {
                proof {
                    assert((k + 1) * size <= count * size) by (nonlinear_arith)
                        requires
                            0 <= size,
                            k < count,
                    ;
                    assert(0 <= k * size) by (nonlinear_arith)
                        requires
                            0 <= size,
                            0 <= k,
                    ;
                    assert(k * size + size == (k + 1) * size) by (nonlinear_arith);
                }
                let rec = T::read_from(slice_subrange(s, k * size, k * size + size));
                proof {
                    let a: int = k * size;
                    let img = pe.spec_image();
                    assert forall|j: int| 0 <= j < size implies #[trigger] s@.subrange(
                        a,
                        a + size,
                    )[j] == img.subrange(o + a, o + a + size)[j] by {
                        let e2 = pe.spec_slice(rva, T::spec_size() * count, T::spec_align())->Ok_0.1;
                        assert(s@.subrange(a, a + size)[j] == s@[a + j]);
                        assert(img.subrange(o + a, o + a + size)[j] == img[o + a + j]);
                        assert(img.subrange(o, e2)[a + j] == img[o + (a + j)]);
                        assert(s@[a + j] == img.subrange(o, e2)[a + j]);
                    }
                    assert(s@.subrange(a, a + size) =~= img.subrange(o + a, o + a + size));
                    assert(rec == T::spec_read(img.subrange(o + k * size, o + (k + 1) * size)));
                }
                v.push(rec);
                k += 1;
            }
            Ok(v)
        },
        Err(e) => Err(e),
    }
}

/// The model of `derva_str`: the nul-terminated bytes at the RVA, stopping
/// at the end of what the RVA's region can serve.
pub open spec fn spec_derva_str<P: Pe>(pe: P, rva: u32) -> Result<Seq<u8>, Error> {
    match pe.spec_slice(rva, 0, 1) {
        Ok(oe) => {
            let region = pe.spec_image().subrange(oe.0, oe.1);
            if nul_pos(region) < region.len() {
                Ok(region.subrange(0, nul_pos(region)))
            } else {
                Err(Error::CStr)
            }
        },
        Err(er) => Err(er),
    }
}

/// Reads the nul-terminated byte string at an RVA; fails with `CStr` when
/// no terminator exists before the containing region ends.
pub fn derva_str<P: Pe>(pe: &P, rva: u32) -> (r: Result<&[u8], Error>)
    requires
        spec_validate(pe.spec_image()) is Ok,
    ensures
        (match (r, spec_derva_str(*pe, rva)) {
            (Ok(s), Ok(q)) => s@ == q,
            (Err(e1), Err(e2)) => e1 == e2,
            _ => false,
        }),
{
    match pe.slice(rva, 0, 1) {
        Ok(s) => {
            let is_nul = |b: &u8| -> (r: bool)
                ensures
                    r == (*b == 0),
                { *b == 0 };
            let parts = split_f(s, is_nul);
            proof {
                let i = choose|i: int| split_parts(s@, is_nul, parts.0@, parts.1@, i);
                lemma_nul_pos_is(s@, i);
            }
            if parts.1.is_empty() {
                Err(Error::CStr)
            } else {
                Ok(parts.0)
            }
        },
        Err(e) => Err(e),
    }
}

} // verus!
