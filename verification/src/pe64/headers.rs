//! The header model: what each header field of an image blob is, and when a
//! blob is accepted as a PE32+ image.

use vstd::prelude::*;
use vstd::slice::slice_subrange;

use crate::error::Error;
use crate::image::ImageDosHeader;
use crate::image::ImageFileHeader;
use crate::image::ImageOptionalHeader64;
use crate::image::ImageSectionHeader;
use crate::image::IMAGE_DOS_SIGNATURE;
use crate::image::IMAGE_FILE_MACHINE_AMD64;
use crate::image::IMAGE_FILE_MACHINE_IA64;
use crate::image::IMAGE_NT_HEADERS_SIGNATURE;
use crate::image::IMAGE_NT_OPTIONAL_HDR64_MAGIC;
use crate::util::le16;
use crate::util::le32;
use crate::util::le64;
use crate::util::read_le16;
use crate::util::read_le32;
use crate::util::Pod;

verus! {

/// The size of the NT headers: signature, file header and PE32+ optional
/// header with all sixteen data-directory slots.
pub const SIZEOF_NT_HEADERS: usize = 264;

/// The smallest PE32+ optional header: the fixed part plus sixteen
/// data-directory slots.
pub const SIZEOF_OPTIONAL_HEADER: usize = 240;

/// The size of one section-table row.
pub const SIZEOF_SECTION_HEADER: usize = 40;

/// The DOS signature field of the blob.
pub open spec fn spec_dos_magic(img: Seq<u8>) -> int {
    le16(img, 0)
}

/// The offset of the NT headers.
pub open spec fn spec_e_lfanew(img: Seq<u8>) -> int {
    le32(img, 60)
}

/// The NT signature of the blob.
pub open spec fn spec_nt_signature(img: Seq<u8>) -> int {
    le32(img, spec_e_lfanew(img))
}

/// The machine field of the COFF file header.
pub open spec fn spec_machine(img: Seq<u8>) -> int {
    le16(img, spec_e_lfanew(img) + 4)
}

/// The number of section-table rows.
pub open spec fn spec_number_of_sections(img: Seq<u8>) -> int {
    le16(img, spec_e_lfanew(img) + 6)
}

/// The declared size of the optional header.
pub open spec fn spec_size_of_optional_header(img: Seq<u8>) -> int {
    le16(img, spec_e_lfanew(img) + 20)
}

/// The magic of the optional header.
pub open spec fn spec_optional_magic(img: Seq<u8>) -> int {
    le16(img, spec_e_lfanew(img) + 24)
}

/// The image base the optional header declares.
pub open spec fn spec_image_base(img: Seq<u8>) -> int {
    le64(img, spec_e_lfanew(img) + 48)
}

/// The size of the loaded image the optional header declares.
pub open spec fn spec_size_of_image(img: Seq<u8>) -> int {
    le32(img, spec_e_lfanew(img) + 80)
}

/// The size of the header region the optional header declares.
pub open spec fn spec_size_of_headers(img: Seq<u8>) -> int {
    le32(img, spec_e_lfanew(img) + 84)
}

/// The number of data-directory slots the optional header declares.
pub open spec fn spec_number_of_rva_and_sizes(img: Seq<u8>) -> int {
    le32(img, spec_e_lfanew(img) + 132)
}

/// The offset of the section table.
pub open spec fn spec_section_table_offset(img: Seq<u8>) -> int {
    spec_e_lfanew(img) + 24 + spec_size_of_optional_header(img)
}

/// The DOS header of the blob, as a record.
pub open spec fn spec_dos_header(img: Seq<u8>) -> ImageDosHeader {
    ImageDosHeader::spec_read(img.subrange(0, 64))
}

/// The COFF file header of the blob, as a record.
pub open spec fn spec_file_header(img: Seq<u8>) -> ImageFileHeader {
    ImageFileHeader::spec_read(img.subrange(spec_e_lfanew(img) + 4, spec_e_lfanew(img) + 24))
}

/// The PE32+ optional header of the blob, as a record.
pub open spec fn spec_optional_header(img: Seq<u8>) -> ImageOptionalHeader64 {
    ImageOptionalHeader64::spec_read(
        img.subrange(spec_e_lfanew(img) + 24, spec_e_lfanew(img) + 136),
    )
}

/// Row `i` of the section table.
pub open spec fn spec_section(img: Seq<u8>, i: int) -> ImageSectionHeader {
    ImageSectionHeader::spec_read(
        img.subrange(
            spec_section_table_offset(img) + i * 40,
            spec_section_table_offset(img) + i * 40 + 40,
        ),
    )
}

/// The whole section table, in on-disk order.
pub open spec fn spec_sections(img: Seq<u8>) -> Seq<ImageSectionHeader> {
    Seq::new(spec_number_of_sections(img) as nat, |i: int| spec_section(img, i))
}

/// Whether every section's virtual range lies inside the declared image.
pub open spec fn spec_sections_sane(img: Seq<u8>) -> bool {
    forall|i: int|
        0 <= i < spec_number_of_sections(img) ==> (#[trigger] spec_section(img, i)).VirtualAddress
            + spec_section(img, i).VirtualSize <= spec_size_of_image(img)
}

/// The verdict of the header validator on a blob.
///
/// The checks run in the order the fields are reached: DOS signature, NT
/// range and signature, machine, optional-header size and magic,
/// directory count, section-table range, and the gross-impossibility
/// checks on the declared sizes.
pub open spec fn spec_validate(img: Seq<u8>) -> Result<(), Error> {
    if img.len() < 64 {
        Err(Error::OOB)
    } else if spec_dos_magic(img) != IMAGE_DOS_SIGNATURE {
        Err(Error::BadMagic)
    } else if spec_e_lfanew(img) + SIZEOF_NT_HEADERS > img.len() {
        Err(Error::OOB)
    } else if spec_nt_signature(img) != IMAGE_NT_HEADERS_SIGNATURE {
        Err(Error::BadMagic)
    } else if spec_machine(img) != IMAGE_FILE_MACHINE_AMD64 && spec_machine(img)
        != IMAGE_FILE_MACHINE_IA64 {
        Err(Error::Invalid)
    } else if spec_size_of_optional_header(img) < SIZEOF_OPTIONAL_HEADER {
        Err(Error::Invalid)
    } else if spec_optional_magic(img) != IMAGE_NT_OPTIONAL_HDR64_MAGIC {
        Err(Error::BadMagic)
    } else if spec_number_of_rva_and_sizes(img) > 16 {
        Err(Error::Invalid)
    } else if spec_section_table_offset(img) + spec_number_of_sections(img) * 40 > img.len() {
        Err(Error::OOB)
    } else if spec_size_of_image(img) < spec_size_of_headers(img) {
        Err(Error::Insanity)
    } else if !spec_sections_sane(img) {
        Err(Error::Insanity)
    } else {
        Ok(())
    }
}

/// Whether the blob passes every validator check before the section-range
/// check.
pub open spec fn spec_validate_prefix_ok(img: Seq<u8>) -> bool {
    &&& img.len() >= 64
    &&& spec_dos_magic(img) == IMAGE_DOS_SIGNATURE
    &&& spec_e_lfanew(img) + SIZEOF_NT_HEADERS <= img.len()
    &&& spec_nt_signature(img) == IMAGE_NT_HEADERS_SIGNATURE
    &&& (spec_machine(img) == IMAGE_FILE_MACHINE_AMD64 || spec_machine(img)
        == IMAGE_FILE_MACHINE_IA64)
    &&& spec_size_of_optional_header(img) >= SIZEOF_OPTIONAL_HEADER
    &&& spec_optional_magic(img) == IMAGE_NT_OPTIONAL_HDR64_MAGIC
    &&& spec_number_of_rva_and_sizes(img) <= 16
    &&& spec_section_table_offset(img) + spec_number_of_sections(img) * 40 <= img.len()
    &&& spec_size_of_image(img) >= spec_size_of_headers(img)
}

/// A blob the validator accepts passes every individual check.
pub proof fn lemma_validate_ok(img: Seq<u8>)
    requires
        spec_validate(img) is Ok,
    ensures
        spec_validate_prefix_ok(img),
        spec_sections_sane(img),
{
}

/// Reads the offset of the NT headers of a validated blob.
pub(crate) fn read_e_lfanew(image: &[u8]) -> (r: u32)
    requires
        spec_validate_prefix_ok(image@),
    ensures
        r == spec_e_lfanew(image@),
{
    let n = image.len();
    read_le32(image, 60)
}

/// Reads the number of section-table rows of a validated blob.
pub(crate) fn read_number_of_sections(image: &[u8]) -> (r: usize)
    requires
        spec_validate_prefix_ok(image@),
    ensures
        r == spec_number_of_sections(image@),
{
    let n = image.len();
    let p = read_e_lfanew(image) as usize;
    read_le16(image, p + 6) as usize
}

/// Reads the declared size of the header region of a validated blob.
pub(crate) fn read_size_of_headers(image: &[u8]) -> (r: u32)
    requires
        spec_validate_prefix_ok(image@),
    ensures
        r == spec_size_of_headers(image@),
{
    let n = image.len();
    let p = read_e_lfanew(image) as usize;
    read_le32(image, p + 84)
}

/// Reads row `idx` of the section table of a validated blob.
pub fn section_header_at(image: &[u8], idx: usize) -> (r: ImageSectionHeader)
    requires
        spec_validate_prefix_ok(image@),
        0 <= idx < spec_number_of_sections(image@),
    ensures
        r == spec_section(image@, idx as int),
{
    let n = image.len();
    let p = read_e_lfanew(image) as usize;
    let soh = read_le16(image, p + 20) as usize;
    let sto = p + 24 + soh;
    let off = sto + idx * 40;
    proof {
        assert((idx + 1) * 40 <= spec_number_of_sections(image@) * 40) by (nonlinear_arith)
            requires
                idx < spec_number_of_sections(image@),
        ;
        assert(off + 40 <= n);
    }
    ImageSectionHeader::read_from(slice_subrange(image, off, off + 40))
}

/// Validates the DOS and NT headers of a blob as a PE32+ image.
///
/// Relied on by the view constructors: a view exists only for blobs this
/// function accepts.
pub fn validate_headers(image: &[u8]) -> (r: Result<(), Error>)
    ensures
        r == spec_validate(image@),
{
    let n = image.len();
    if n < 64 {
        return Err(Error::OOB);
    }
    if read_le16(image, 0) != IMAGE_DOS_SIGNATURE {
        return Err(Error::BadMagic);
    }
    let p32 = read_le32(image, 60);
    if p32 as u64 + SIZEOF_NT_HEADERS as u64 > n as u64 {
        return Err(Error::OOB);
    }
    let p = p32 as usize;
    if read_le32(image, p) != IMAGE_NT_HEADERS_SIGNATURE {
        return Err(Error::BadMagic);
    }
    let machine = read_le16(image, p + 4);
    if machine != IMAGE_FILE_MACHINE_AMD64 && machine != IMAGE_FILE_MACHINE_IA64 {
        return Err(Error::Invalid);
    }
    let soh = read_le16(image, p + 20);
    if (soh as usize) < SIZEOF_OPTIONAL_HEADER {
        return Err(Error::Invalid);
    }
    if read_le16(image, p + 24) != IMAGE_NT_OPTIONAL_HDR64_MAGIC {
        return Err(Error::BadMagic);
    }
    if read_le32(image, p + 132) > 16 {
        return Err(Error::Invalid);
    }
    let nsec = read_le16(image, p + 6) as usize;
    let sto64: u64 = p as u64 + 24 + soh as u64;
    if sto64 + (nsec as u64) * 40 > n as u64 {
        return Err(Error::OOB);
    }
    let size_of_image = read_le32(image, p + 80);
    let size_of_headers = read_le32(image, p + 84);
    if size_of_image < size_of_headers {
        return Err(Error::Insanity);
    }
    let mut i: usize = 0;
    while i < nsec
        invariant
            n == image@.len(),
            nsec == spec_number_of_sections(image@),
            size_of_image == spec_size_of_image(image@),
            spec_validate_prefix_ok(image@),
            forall|j: int|
                0 <= j < i ==> (#[trigger] spec_section(image@, j)).VirtualAddress + spec_section(
                    image@,
                    j,
                ).VirtualSize <= spec_size_of_image(image@),
        decreases nsec - i,
    {
        let s = section_header_at(image, i);
        if s.VirtualAddress as u64 + s.VirtualSize as u64 > size_of_image as u64 {
            return Err(Error::Insanity);
        }
        i += 1;
    }
    Ok(())
}

} // verus!
