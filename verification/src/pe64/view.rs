//! View into a mapped PE image: RVA resolution is the identity within the
//! declared image size, as the loader lays the image out in memory.

use vstd::prelude::*;
use vstd::slice::slice_subrange;

use crate::error::Error;
use crate::pe64::file::spec_file_slice;
use crate::pe64::file::spec_find_section;
use crate::pe64::file::spec_header_end;
use crate::pe64::file::spec_section_lookup;
use crate::pe64::file::lemma_find_section_props;
use crate::pe64::headers::lemma_validate_ok;
use crate::pe64::headers::spec_e_lfanew;
use crate::pe64::headers::spec_machine;
use crate::pe64::headers::spec_nt_signature;
use crate::pe64::headers::spec_number_of_rva_and_sizes;
use crate::pe64::headers::spec_number_of_sections;
use crate::pe64::headers::spec_optional_magic;
use crate::pe64::headers::spec_size_of_optional_header;
use crate::pe64::headers::spec_section;
use crate::pe64::headers::spec_sections;
use crate::pe64::headers::spec_section_table_offset;
use crate::pe64::headers::spec_size_of_headers;
use crate::pe64::headers::spec_size_of_image;
use crate::pe64::headers::spec_validate;
use crate::pe64::headers::validate_headers;
use crate::pe64::pe::read_size_of_image_pe;
use crate::pe64::pe::Pe;

verus! {

/// The resolution model of a mapped view: the identity translation, inside
/// the declared image size and the blob.
pub open spec fn spec_view_slice(img: Seq<u8>, rva: u32, min_size: int, align: int) -> Result<
    (int, int),
    Error,
> {
    let n = img.len() as int;
    let size = spec_size_of_image(img);
    if rva == 0 {
        Err(Error::Null)
    } else if rva >= size || rva >= n {
        Err(Error::OOB)
    } else {
        let e = if size <= n {
            size
        } else {
            n
        };
        if rva as int % align != 0 {
            Err(Error::Misalign)
        } else if e - rva >= min_size {
            Ok((rva as int, e))
        } else {
            Err(Error::OOB)
        }
    }
}

/// View into a mapped PE image.
#[derive(Clone, Copy)]
pub struct PeView<'a> {
    image: &'a [u8],
}

impl<'a> PeView<'a> {
    /// Try to read the given bytes as a mapped PE image.
    pub fn from_bytes(image: &'a [u8]) -> (r: Result<PeView<'a>, Error>)
        ensures
            (match r {
                Ok(v) => v.spec_image() == image@,
                Err(e) => spec_validate(image@) == Err::<(), Error>(e),
            }),
            r is Ok <==> spec_validate(image@) is Ok,
    {
        match validate_headers(image) {
            Ok(_) => Ok(PeView { image }),
            Err(e) => Err(e),
        }
    }
}

impl<'a> Pe for PeView<'a> {
    closed spec fn spec_image(&self) -> Seq<u8> {
        self.image@
    }

    open spec fn spec_slice(&self, rva: u32, min_size: int, align: int) -> Result<
        (int, int),
        Error,
    > {
        spec_view_slice(self.spec_image(), rva, min_size, align)
    }

    open spec fn spec_extent(&self) -> int {
        spec_size_of_image(self.spec_image())
    }

    proof fn lemma_slice_ok(&self, rva: u32, min_size: int, align: int) {
    }

    proof fn lemma_size_extent(&self) {
    }

    proof fn lemma_slice_pure(&self, other: &Self, rva: u32, min_size: int, align: int) {
    }

    fn image(&self) -> (r: &[u8]) {
        self.image
    }

    fn slice(&self, rva: u32, min_size: usize, align: usize) -> (r: Result<&[u8], Error>) {
        proof {
            lemma_validate_ok(self.image@);
        }
        if rva == 0 {
            return Err(Error::Null);
        }
        let n = self.image.len();
        let size = read_size_of_image_pe(self.image);
        if rva >= size || rva as u64 >= n as u64 {
            return Err(Error::OOB);
        }
        let e64: u64 = if size as u64 <= n as u64 {
            size as u64
        } else {
            n as u64
        };
        if rva as u64 % align as u64 != 0 {
            Err(Error::Misalign)
        } else if e64 - rva as u64 >= min_size as u64 {
            Ok(slice_subrange(self.image, rva as usize, e64 as usize))
        } else {
            Err(Error::OOB)
        }
    }

    fn read(&self, va: u64, min_size: usize, align: usize) -> (r: Result<&[u8], Error>) {
        proof {
            lemma_validate_ok(self.image@);
        }
        let base = crate::pe64::pe::read_image_base(self.image);
        let size = read_size_of_image_pe(self.image);
        if va == 0 {
            Err(Error::Null)
        } else if va < base || va - base > size as u64 {
            Err(Error::OOB)
        } else {
            let rva = (va - base) as u32;
            self.slice(rva, min_size, align)
        }
    }
}

/// Whether byte `k` of the raw data of section `i` of the file blob agrees
/// with its place in the mapped blob.
pub open spec fn spec_sec_byte_maps(file_img: Seq<u8>, mem_img: Seq<u8>, i: int, k: int) -> bool {
    (0 <= i < spec_number_of_sections(file_img) && 0 <= k < spec_section(
        file_img,
        i,
    ).SizeOfRawData && spec_section(file_img, i).VirtualAddress + k < mem_img.len()
        && spec_section(file_img, i).PointerToRawData + k < file_img.len())
        ==> mem_img[spec_section(file_img, i).VirtualAddress + k] == file_img[spec_section(
        file_img,
        i,
    ).PointerToRawData + k]
}

/// The loading relation: `mem_img` is the form the loader gives `file_img`
/// — the header region copied in place, and each section's raw data copied
/// to its virtual address, within an allocation of the declared image
/// size. The header sizes are asked to cover the parsed headers, as the
/// loader requires.
pub open spec fn spec_loads_to(file_img: Seq<u8>, mem_img: Seq<u8>) -> bool {
    &&& spec_validate(file_img) is Ok
    &&& mem_img.len() == spec_size_of_image(file_img)
    &&& spec_e_lfanew(file_img) + 264 <= spec_size_of_headers(file_img)
    &&& spec_section_table_offset(file_img) + spec_number_of_sections(file_img) * 40
        <= spec_size_of_headers(file_img)
    &&& forall|k: int| 0 <= k < spec_header_end(file_img) ==> mem_img[k] == #[trigger] file_img[k]
    &&& forall|i: int, k: int| #[trigger] spec_sec_byte_maps(file_img, mem_img, i, k)
}

/// A mapped form of a valid file blob is itself a valid image, with the
/// same parsed headers and section table.
pub proof fn lemma_loads_to_valid(file_img: Seq<u8>, mem_img: Seq<u8>)
    requires
        spec_loads_to(file_img, mem_img),
    ensures
        spec_validate(mem_img) is Ok,
        spec_e_lfanew(mem_img) == spec_e_lfanew(file_img),
        spec_size_of_image(mem_img) == spec_size_of_image(file_img),
        spec_size_of_headers(mem_img) == spec_size_of_headers(file_img),
        crate::pe64::headers::spec_image_base(mem_img) == crate::pe64::headers::spec_image_base(
            file_img,
        ),
        spec_sections(mem_img) == spec_sections(file_img),
{
    lemma_validate_ok(file_img);
    let he = spec_header_end(file_img);
    let p = spec_e_lfanew(file_img);
    let sto = spec_section_table_offset(file_img);
    let nsec = spec_number_of_sections(file_img);
    assert(spec_size_of_headers(file_img) <= spec_size_of_image(file_img));
    assert(mem_img.len() >= he);
    assert(he >= p + 264);
    assert(spec_e_lfanew(mem_img) == p);
    assert(spec_machine(mem_img) == spec_machine(file_img));
    assert(spec_number_of_sections(mem_img) == nsec);
    assert(spec_size_of_optional_header(mem_img) == spec_size_of_optional_header(file_img));
    assert(spec_optional_magic(mem_img) == spec_optional_magic(file_img));
    assert(spec_number_of_rva_and_sizes(mem_img) == spec_number_of_rva_and_sizes(file_img));
    assert(spec_nt_signature(mem_img) == spec_nt_signature(file_img));
    assert(spec_size_of_image(mem_img) == spec_size_of_image(file_img));
    assert(spec_size_of_headers(mem_img) == spec_size_of_headers(file_img));
    assert forall|i: int| 0 <= i < nsec implies spec_section(mem_img, i) == spec_section(
        file_img,
        i,
    ) by {
        assert(sto + i * 40 + 40 <= sto + nsec * 40) by (nonlinear_arith)
            requires
                0 <= i < nsec,
        ;
        assert(mem_img.subrange(sto + i * 40, sto + i * 40 + 40) =~= file_img.subrange(
            sto + i * 40,
            sto + i * 40 + 40,
        ));
    }
    assert(spec_sections(mem_img) =~= spec_sections(file_img));
    assert(spec_validate(mem_img) is Ok);
}

/// The section case of `lemma_file_mapped_agree`.
#[verifier::rlimit(100)]
#[verifier::spinoff_prover]
proof fn lemma_agree_in_section(
    file_img: Seq<u8>,
    mem_img: Seq<u8>,
    rva: u32,
    min_size: int,
    align: int,
)
    requires
        0 <= min_size,
        spec_loads_to(file_img, mem_img),
        spec_file_slice(file_img, rva, min_size, align) is Ok,
        spec_view_slice(mem_img, rva, min_size, align) is Ok,
        spec_find_section(spec_sections(file_img), rva) >= 0,
    ensures
        ({
            let (of, ef) = spec_file_slice(file_img, rva, min_size, align)->Ok_0;
            let (om, em) = spec_view_slice(mem_img, rva, min_size, align)->Ok_0;
            &&& of + min_size <= ef <= file_img.len()
            &&& om + min_size <= em <= mem_img.len()
            &&& file_img.subrange(of, of + min_size) == mem_img.subrange(om, om + min_size)
        }),
{
    reveal(crate::pe64::file::spec_section_lookup);
    let secs = spec_sections(file_img);
    let (of, ef) = spec_file_slice(file_img, rva, min_size, align)->Ok_0;
    let (om, em) = spec_view_slice(mem_img, rva, min_size, align)->Ok_0;
    lemma_find_section_props(secs, rva);
    let i = spec_find_section(secs, rva);
    let s = secs[i];
    assert(s == spec_section(file_img, i));
    let a = file_img.subrange(of, of + min_size);
    let b = mem_img.subrange(om, om + min_size);
    assert forall|j: int| 0 <= j < min_size implies #[trigger] a[j] == b[j] by {
        let k = rva - s.VirtualAddress + j;
        assert(spec_sec_byte_maps(file_img, mem_img, i, k));
        assert(a[j] == file_img[of + j]);
        assert(b[j] == mem_img[om + j]);
    }
    assert(a =~= b);
}

/// The header-region case of `lemma_file_mapped_agree`.
#[verifier::rlimit(100)]
#[verifier::spinoff_prover]
proof fn lemma_agree_in_headers(
    file_img: Seq<u8>,
    mem_img: Seq<u8>,
    rva: u32,
    min_size: int,
    align: int,
)
    requires
        0 <= min_size,
        spec_loads_to(file_img, mem_img),
        spec_file_slice(file_img, rva, min_size, align) is Ok,
        spec_view_slice(mem_img, rva, min_size, align) is Ok,
        spec_find_section(spec_sections(file_img), rva) < 0,
    ensures
        ({
            let (of, ef) = spec_file_slice(file_img, rva, min_size, align)->Ok_0;
            let (om, em) = spec_view_slice(mem_img, rva, min_size, align)->Ok_0;
            &&& of + min_size <= ef <= file_img.len()
            &&& om + min_size <= em <= mem_img.len()
            &&& file_img.subrange(of, of + min_size) == mem_img.subrange(om, om + min_size)
        }),
{
    reveal(crate::pe64::file::spec_section_lookup);
    let (of, ef) = spec_file_slice(file_img, rva, min_size, align)->Ok_0;
    let (om, em) = spec_view_slice(mem_img, rva, min_size, align)->Ok_0;
    let a = file_img.subrange(of, of + min_size);
    let b = mem_img.subrange(om, om + min_size);
    assert forall|j: int| 0 <= j < min_size implies #[trigger] a[j] == b[j] by {
        assert(of + j < spec_header_end(file_img));
        assert(a[j] == file_img[of + j]);
        assert(b[j] == mem_img[om + j]);
    }
    assert(a =~= b);
}

/// File and mapped views of one image agree: wherever both resolve an RVA,
/// they serve the same bytes.
pub proof fn lemma_file_mapped_agree(
    file_img: Seq<u8>,
    mem_img: Seq<u8>,
    rva: u32,
    min_size: int,
    align: int,
)
    requires
        0 <= min_size,
        spec_loads_to(file_img, mem_img),
        spec_file_slice(file_img, rva, min_size, align) is Ok,
        spec_view_slice(mem_img, rva, min_size, align) is Ok,
    ensures
        ({
            let (of, ef) = spec_file_slice(file_img, rva, min_size, align)->Ok_0;
            let (om, em) = spec_view_slice(mem_img, rva, min_size, align)->Ok_0;
            &&& of + min_size <= ef <= file_img.len()
            &&& om + min_size <= em <= mem_img.len()
            &&& file_img.subrange(of, of + min_size) == mem_img.subrange(om, om + min_size)
        }),
{
    if spec_find_section(spec_sections(file_img), rva) >= 0 {
        lemma_agree_in_section(file_img, mem_img, rva, min_size, align);
    } else {
        lemma_agree_in_headers(file_img, mem_img, rva, min_size, align);
    }
}

} // verus!
