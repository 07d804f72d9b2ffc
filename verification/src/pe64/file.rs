//! View into an unmapped PE file: RVA resolution goes through the section
//! table, raw data is served from the file offsets the table declares.

use vstd::prelude::*;
use vstd::slice::slice_subrange;

use crate::error::Error;
use crate::image::ImageSectionHeader;
use crate::pe64::headers::lemma_validate_ok;
use crate::pe64::headers::read_number_of_sections;
use crate::pe64::headers::read_size_of_headers;
use crate::pe64::headers::spec_sections;
use crate::pe64::headers::spec_size_of_headers;
use crate::pe64::headers::spec_size_of_image;
use crate::pe64::headers::spec_validate;
use crate::pe64::headers::validate_headers;
use crate::pe64::pe::read_image_base;
use crate::pe64::pe::read_size_of_image_pe;
use crate::pe64::pe::Pe;
use crate::pe64::Rva;

verus! {

/// Whether `rva` lies in the virtual range of section `s`.
pub open spec fn spec_section_contains(s: ImageSectionHeader, rva: u32) -> bool {
    s.VirtualAddress <= rva < s.VirtualAddress + s.VirtualSize
}

/// The index of the first section whose virtual range holds `rva`, or `-1`.
pub open spec fn spec_find_section(secs: Seq<ImageSectionHeader>, rva: u32) -> int
    decreases secs.len(),
{
    if secs.len() == 0 {
        -1
    } else if spec_section_contains(secs[0], rva) {
        0
    } else {
        let r = spec_find_section(secs.drop_first(), rva);
        if r < 0 {
            -1
        } else {
            1 + r
        }
    }
}

/// When `i` is the first index containing `rva`, the search returns `i`.
pub proof fn lemma_find_section_found(secs: Seq<ImageSectionHeader>, rva: u32, i: int)
    requires
        0 <= i < secs.len(),
        spec_section_contains(secs[i], rva),
        forall|j: int| 0 <= j < i ==> !spec_section_contains(#[trigger] secs[j], rva),
    ensures
        spec_find_section(secs, rva) == i,
    decreases i,
{
    if i > 0 {
        assert(!spec_section_contains(secs[0], rva));
        lemma_find_section_found(secs.drop_first(), rva, i - 1);
    }
}

/// When no section contains `rva`, the search fails.
pub proof fn lemma_find_section_none(secs: Seq<ImageSectionHeader>, rva: u32)
    requires
        forall|j: int| 0 <= j < secs.len() ==> !spec_section_contains(#[trigger] secs[j], rva),
    ensures
        spec_find_section(secs, rva) == -1,
    decreases secs.len(),
{
    if secs.len() > 0 {
        lemma_find_section_none(secs.drop_first(), rva);
    }
}

/// A successful search names a section that contains `rva`.
pub proof fn lemma_find_section_props(secs: Seq<ImageSectionHeader>, rva: u32)
    ensures
        spec_find_section(secs, rva) >= 0 ==> 0 <= spec_find_section(secs, rva) < secs.len()
            && spec_section_contains(secs[spec_find_section(secs, rva)], rva),
    decreases secs.len(),
{
    if secs.len() > 0 && !spec_section_contains(secs[0], rva) {
        lemma_find_section_props(secs.drop_first(), rva);
    }
}

/// The furthest RVA any section's raw data reaches.
pub open spec fn spec_max_span(secs: Seq<ImageSectionHeader>) -> int
    decreases secs.len(),
{
    if secs.len() == 0 {
        0
    } else {
        let rest = spec_max_span(secs.drop_first());
        let cur = secs[0].VirtualAddress + secs[0].SizeOfRawData;
        if cur > rest {
            cur
        } else {
            rest
        }
    }
}

/// Every section's raw reach is bounded by the maximum.
pub proof fn lemma_max_span_bound(secs: Seq<ImageSectionHeader>, i: int)
    requires
        0 <= i < secs.len(),
    ensures
        secs[i].VirtualAddress + secs[i].SizeOfRawData <= spec_max_span(secs),
    decreases i,
{
    if i > 0 {
        lemma_max_span_bound(secs.drop_first(), i - 1);
    }
}

/// The maximum is bounded as soon as every section's raw reach is.
pub proof fn lemma_max_span_le(secs: Seq<ImageSectionHeader>, bound: int)
    requires
        0 <= bound,
        forall|j: int|
            0 <= j < secs.len() ==> (#[trigger] secs[j]).VirtualAddress + secs[j].SizeOfRawData
                <= bound,
    ensures
        spec_max_span(secs) <= bound,
    decreases secs.len(),
{
    if secs.len() > 0 {
        assert(secs[0].VirtualAddress + secs[0].SizeOfRawData <= bound);
        lemma_max_span_le(secs.drop_first(), bound);
    }
}

/// The addressable extent of a file view: the declared image size, or the
/// furthest raw tail a section declares beyond it.
pub open spec fn spec_file_extent(img: Seq<u8>) -> int {
    let span = spec_max_span(spec_sections(img));
    if span > spec_size_of_image(img) {
        span
    } else {
        spec_size_of_image(img)
    }
}

/// Whether every section's raw data stays inside the declared image: no
/// section reaches past `SizeOfImage` with bytes the loader would not map.
pub open spec fn spec_raw_within_image(img: Seq<u8>) -> bool {
    forall|j: int|
        0 <= j < spec_sections(img).len() ==> (#[trigger] spec_sections(
            img,
        )[j]).VirtualAddress + spec_sections(img)[j].SizeOfRawData <= spec_size_of_image(img)
}

/// On an image whose sections keep their raw data inside the declared
/// size, a file view's extent is exactly the declared image size.
pub proof fn lemma_file_extent_exact(img: Seq<u8>)
    requires
        spec_validate(img) is Ok,
        spec_raw_within_image(img),
    ensures
        spec_file_extent(img) == spec_size_of_image(img),
{
    lemma_max_span_le(spec_sections(img), spec_size_of_image(img));
}

/// The header region a file view serves for RVAs below any section: up to
/// the declared header size, clipped to the blob.
pub open spec fn spec_header_end(img: Seq<u8>) -> int {
    if spec_size_of_headers(img) <= img.len() {
        spec_size_of_headers(img)
    } else {
        img.len() as int
    }
}

/// The resolution model of a file view, after the null check: find the
/// first section holding the RVA and serve its raw bytes, or serve the
/// header region, or refuse. Alignment is judged on the resolved file
/// offset, so that a typed read of the returned slice sits on a properly
/// aligned address of the blob. A shortfall is `ZeroFill` when the whole
/// request stays within the section's virtual range — the loader would
/// serve it from zero-filled memory — and `OOB` when it runs past the
/// section's virtual end, where no loader could serve it.
#[verifier::opaque]
pub open spec fn spec_section_lookup(img: Seq<u8>, rva: u32, min_size: int, align: int) -> Result<
    (int, int),
    Error,
> {
    let secs = spec_sections(img);
    let n = img.len() as int;
    let i = spec_find_section(secs, rva);
    if i >= 0 {
        let s = secs[i];
        if rva - s.VirtualAddress >= s.SizeOfRawData {
            Err(Error::ZeroFill)
        } else {
            let o = rva - s.VirtualAddress + s.PointerToRawData;
            let e = s.PointerToRawData + s.SizeOfRawData;
            if o % align != 0 {
                Err(Error::Misalign)
            } else if e <= n && e - o >= min_size {
                Ok((o, e))
            } else if rva + min_size > s.VirtualAddress + s.VirtualSize {
                Err(Error::OOB)
            } else {
                Err(Error::ZeroFill)
            }
        }
    } else {
        let he = spec_header_end(img);
        if rva < he {
            if rva as int % align != 0 {
                Err(Error::Misalign)
            } else if he - rva >= min_size {
                Ok((rva as int, he))
            } else {
                Err(Error::OOB)
            }
        } else {
            Err(Error::OOB)
        }
    }
}

/// The resolution model of a file view.
pub open spec fn spec_file_slice(img: Seq<u8>, rva: u32, min_size: int, align: int) -> Result<
    (int, int),
    Error,
> {
    if rva == 0 {
        Err(Error::Null)
    } else {
        spec_section_lookup(img, rva, min_size, align)
    }
}

/// View into an unmapped PE file.
#[derive(Clone, Copy)]
pub struct PeFile<'a> {
    image: &'a [u8],
}

impl<'a> PeFile<'a> {
    /// Try to read the given bytes as an unmapped PE file.
    pub fn from_bytes(image: &'a [u8]) -> (r: Result<PeFile<'a>, Error>)
        ensures
            (match r {
                Ok(f) => f.spec_image() == image@,
                Err(e) => spec_validate(image@) == Err::<(), Error>(e),
            }),
            r is Ok <==> spec_validate(image@) is Ok,
    {
        match validate_headers(image) {
            Ok(_) => Ok(PeFile { image }),
            Err(e) => Err(e),
        }
    }

    /// Serves `rva` from the raw range of the section containing it, or
    /// from the header region below the sections.
    fn section_get(&self, rva: Rva, min_size: usize, align: usize) -> (r: Result<&'a [u8], Error>)
        requires
            spec_validate(self.image@) is Ok,
            rva != 0,
            align == 1 || align == 2 || align == 4 || align == 8,
        ensures
            (match (r, spec_section_lookup(self.image@, rva, min_size as int, align as int)) {
                (Ok(s), Ok(oe)) => s@ == self.image@.subrange(oe.0, oe.1),
                (Err(e1), Err(e2)) => e1 == e2,
                _ => false,
            }),
    {
        let image = self.image;
        proof {
            lemma_validate_ok(image@);
        }
        let nsec = read_number_of_sections(image);
        let mut i: usize = 0;
        while i < nsec
            invariant
                image@ == self.image@,
                align == 1 || align == 2 || align == 4 || align == 8,
                crate::pe64::headers::spec_validate_prefix_ok(image@),
                nsec == spec_sections(image@).len(),
                0 <= i <= nsec,
                forall|j: int|
                    0 <= j < i ==> !spec_section_contains(
                        #[trigger] spec_sections(image@)[j],
                        rva,
                    ),
            decreases nsec - i,
        {
            let s = crate::pe64::headers::section_header_at(image, i);
            proof {
                assert(spec_sections(image@)[i as int] == s);
            }
            if s.VirtualAddress <= rva && (rva as u64) < s.VirtualAddress as u64
                + s.VirtualSize as u64 {
                proof {
                    lemma_find_section_found(spec_sections(image@), rva, i as int);
                }
                return serve_section(image, rva, min_size, align, s, Ghost(i as int));
            }
            i += 1;
        }
        proof {
            lemma_find_section_none(spec_sections(image@), rva);
        }
        serve_header(image, rva, min_size, align)
    }
}

/// Serves `rva` out of the raw range of section `s`, the first section
/// whose virtual range holds it.
fn serve_section<'a>(
    image: &'a [u8],
    rva: Rva,
    min_size: usize,
    align: usize,
    s: ImageSectionHeader,
    Ghost(i): Ghost<int>,
) -> (r: Result<&'a [u8], Error>)
    requires
        spec_find_section(spec_sections(image@), rva) == i,
        0 <= i < spec_sections(image@).len(),
        s == spec_sections(image@)[i],
        spec_section_contains(s, rva),
        align == 1 || align == 2 || align == 4 || align == 8,
    ensures
        (match (r, spec_section_lookup(image@, rva, min_size as int, align as int)) {
            (Ok(sl), Ok(oe)) => sl@ == image@.subrange(oe.0, oe.1),
            (Err(e1), Err(e2)) => e1 == e2,
            _ => false,
        }),
{
    proof {
        reveal(spec_section_lookup);
    }
    let n = image.len();
    if rva - s.VirtualAddress >= s.SizeOfRawData {
        return Err(Error::ZeroFill);
    }
    let o64: u64 = (rva - s.VirtualAddress) as u64 + s.PointerToRawData as u64;
    let e64: u64 = s.PointerToRawData as u64 + s.SizeOfRawData as u64;
    if o64 % align as u64 != 0 {
        return Err(Error::Misalign);
    }
    if e64 <= n as u64 && e64 - o64 >= min_size as u64 {
        return Ok(slice_subrange(image, o64 as usize, e64 as usize));
    }
    let vend: u64 = s.VirtualAddress as u64 + s.VirtualSize as u64;
    if min_size as u64 > vend - rva as u64 {
        Err(Error::OOB)
    } else {
        Err(Error::ZeroFill)
    }
}

/// Serves `rva` out of the header region, when no section holds it.
fn serve_header<'a>(image: &'a [u8], rva: Rva, min_size: usize, align: usize) -> (r: Result<
    &'a [u8],
    Error,
>)
    requires
        crate::pe64::headers::spec_validate_prefix_ok(image@),
        spec_find_section(spec_sections(image@), rva) == -1,
        align == 1 || align == 2 || align == 4 || align == 8,
    ensures
        (match (r, spec_section_lookup(image@, rva, min_size as int, align as int)) {
            (Ok(sl), Ok(oe)) => sl@ == image@.subrange(oe.0, oe.1),
            (Err(e1), Err(e2)) => e1 == e2,
            _ => false,
        }),
{
    proof {
        reveal(spec_section_lookup);
    }
    let n = image.len();
    let he = read_size_of_headers(image);
    let he64: u64 = if (he as u64) <= n as u64 {
        he as u64
    } else {
        n as u64
    };
    if (rva as u64) < he64 {
        if rva as u64 % align as u64 != 0 {
            Err(Error::Misalign)
        } else if he64 - rva as u64 >= min_size as u64 {
            Ok(slice_subrange(image, rva as usize, he64 as usize))
        } else {
            Err(Error::OOB)
        }
    } else {
        Err(Error::OOB)
    }
}

impl<'a> Pe for PeFile<'a> {
    closed spec fn spec_image(&self) -> Seq<u8> {
        self.image@
    }

    open spec fn spec_slice(&self, rva: u32, min_size: int, align: int) -> Result<
        (int, int),
        Error,
    > {
        spec_file_slice(self.spec_image(), rva, min_size, align)
    }

    open spec fn spec_extent(&self) -> int {
        spec_file_extent(self.spec_image())
    }

    proof fn lemma_slice_ok(&self, rva: u32, min_size: int, align: int) {
        reveal(spec_section_lookup);
        let img = self.image@;
        let secs = spec_sections(img);
        lemma_validate_ok(img);
        lemma_find_section_props(secs, rva);
        let i = spec_find_section(secs, rva);
        if i >= 0 {
            lemma_max_span_bound(secs, i);
        }
    }

    proof fn lemma_size_extent(&self) {
    }

    proof fn lemma_slice_pure(&self, other: &Self, rva: u32, min_size: int, align: int) {
    }

    fn image(&self) -> (r: &[u8]) {
        self.image
    }

    fn slice(&self, rva: u32, min_size: usize, align: usize) -> (r: Result<&[u8], Error>) {
        if rva == 0 {
            Err(Error::Null)
        } else {
            self.section_get(rva, min_size, align)
        }
    }

    fn read(&self, va: u64, min_size: usize, align: usize) -> (r: Result<&[u8], Error>) {
        proof {
            lemma_validate_ok(self.image@);
        }
        let base = read_image_base(self.image);
        let size = read_size_of_image_pe(self.image);
        if va == 0 {
            Err(Error::Null)
        } else if va < base || va - base > size as u64 {
            Err(Error::OOB)
        } else {
            let rva = (va - base) as u32;
            if rva == 0 {
                Err(Error::Null)
            } else {
                self.section_get(rva, min_size, align)
            }
        }
    }
}

} // verus!
