//! The PE image records, byte-exact with the on-disk format, and the
//! constants that classify them. Field names use the Microsoft PE spelling.

use vstd::prelude::*;

use crate::util::le16;
use crate::util::le32;
use crate::util::le64;
use crate::util::read_le16;
use crate::util::read_le32;
use crate::util::read_le64;
use crate::util::Pod;

verus! {

pub const IMAGE_DOS_SIGNATURE: u16 = 0x5A4D;

pub const IMAGE_NT_HEADERS_SIGNATURE: u32 = 0x00004550;

pub const IMAGE_FILE_MACHINE_I386: u16 = 0x014C;

pub const IMAGE_FILE_MACHINE_IA64: u16 = 0x0200;

pub const IMAGE_FILE_MACHINE_AMD64: u16 = 0x8664;

pub const IMAGE_NT_OPTIONAL_HDR32_MAGIC: u16 = 0x10B;

pub const IMAGE_NT_OPTIONAL_HDR64_MAGIC: u16 = 0x20B;

pub const IMAGE_SCN_CNT_CODE: u32 = 0x00000020;

pub const IMAGE_SCN_CNT_INITIALIZED_DATA: u32 = 0x00000040;

pub const IMAGE_SCN_CNT_UNINITIALIZED_DATA: u32 = 0x00000080;

pub const IMAGE_SCN_MEM_EXECUTE: u32 = 0x20000000;

pub const IMAGE_SCN_MEM_READ: u32 = 0x40000000;

pub const IMAGE_SCN_MEM_WRITE: u32 = 0x80000000;

pub const IMAGE_DIRECTORY_ENTRY_EXPORT: usize = 0;

pub const IMAGE_DIRECTORY_ENTRY_IMPORT: usize = 1;

pub const IMAGE_DIRECTORY_ENTRY_RESOURCE: usize = 2;

pub const IMAGE_DIRECTORY_ENTRY_EXCEPTION: usize = 3;

pub const IMAGE_DIRECTORY_ENTRY_SECURITY: usize = 4;

pub const IMAGE_DIRECTORY_ENTRY_BASERELOC: usize = 5;

pub const IMAGE_DIRECTORY_ENTRY_DEBUG: usize = 6;

pub const IMAGE_DIRECTORY_ENTRY_ARCHITECTURE: usize = 7;

pub const IMAGE_DIRECTORY_ENTRY_GLOBALPTR: usize = 8;

pub const IMAGE_DIRECTORY_ENTRY_TLS: usize = 9;

pub const IMAGE_DIRECTORY_ENTRY_LOAD_CONFIG: usize = 10;

pub const IMAGE_DIRECTORY_ENTRY_BOUND_IMPORT: usize = 11;

pub const IMAGE_DIRECTORY_ENTRY_IAT: usize = 12;

pub const IMAGE_DIRECTORY_ENTRY_DELAY_IMPORT: usize = 13;

pub const IMAGE_DIRECTORY_ENTRY_COM_DESCRIPTOR: usize = 14;

/// The number of data-directory slots an optional header declares at most.
pub const IMAGE_NUMBEROF_DIRECTORY_ENTRIES: usize = 16;

/// The MS-DOS stub header at offset `0` of every PE image.
#[allow(non_snake_case)]
#[derive(Clone, Copy, Debug)]
pub struct ImageDosHeader {
    pub e_magic: u16,
    pub e_cblp: u16,
    pub e_cp: u16,
    pub e_crlc: u16,
    pub e_cparhdr: u16,
    pub e_minalloc: u16,
    pub e_maxalloc: u16,
    pub e_ss: u16,
    pub e_sp: u16,
    pub e_csum: u16,
    pub e_ip: u16,
    pub e_cs: u16,
    pub e_lfarlc: u16,
    pub e_ovno: u16,
    pub e_res: [u16; 4],
    pub e_oemid: u16,
    pub e_oeminfo: u16,
    pub e_res2: [u16; 10],
    pub e_lfanew: u32,
}

/// The COFF file header that follows the NT signature.
#[allow(non_snake_case)]
#[derive(Clone, Copy, Debug)]
pub struct ImageFileHeader {
    pub Machine: u16,
    pub NumberOfSections: u16,
    pub TimeDateStamp: u32,
    pub PointerToSymbolTable: u32,
    pub NumberOfSymbols: u32,
    pub SizeOfOptionalHeader: u16,
    pub Characteristics: u16,
}

/// The PE32+ optional header.
#[allow(non_snake_case)]
#[derive(Clone, Copy, Debug)]
pub struct ImageOptionalHeader64 {
    pub Magic: u16,
    pub MajorLinkerVersion: u8,
    pub MinorLinkerVersion: u8,
    pub SizeOfCode: u32,
    pub SizeOfInitializedData: u32,
    pub SizeOfUninitializedData: u32,
    pub AddressOfEntryPoint: u32,
    pub BaseOfCode: u32,
    pub ImageBase: u64,
    pub SectionAlignment: u32,
    pub FileAlignment: u32,
    pub MajorOperatingSystemVersion: u16,
    pub MinorOperatingSystemVersion: u16,
    pub MajorImageVersion: u16,
    pub MinorImageVersion: u16,
    pub MajorSubsystemVersion: u16,
    pub MinorSubsystemVersion: u16,
    pub Win32VersionValue: u32,
    pub SizeOfImage: u32,
    pub SizeOfHeaders: u32,
    pub CheckSum: u32,
    pub Subsystem: u16,
    pub DllCharacteristics: u16,
    pub SizeOfStackReserve: u64,
    pub SizeOfStackCommit: u64,
    pub SizeOfHeapReserve: u64,
    pub SizeOfHeapCommit: u64,
    pub LoaderFlags: u32,
    pub NumberOfRvaAndSizes: u32,
}

/// One slot of the data-directory table.
#[allow(non_snake_case)]
#[derive(Clone, Copy, Debug)]
pub struct ImageDataDirectory {
    pub VirtualAddress: u32,
    pub Size: u32,
}

/// One row of the section table.
#[allow(non_snake_case)]
#[derive(Clone, Copy, Debug)]
pub struct ImageSectionHeader {
    pub Name: [u8; 8],
    pub VirtualSize: u32,
    pub VirtualAddress: u32,
    pub SizeOfRawData: u32,
    pub PointerToRawData: u32,
    pub PointerToRelocations: u32,
    pub PointerToLinenumbers: u32,
    pub NumberOfRelocations: u16,
    pub NumberOfLinenumbers: u16,
    pub Characteristics: u32,
}

/// The export directory a PE image's export data directory points at.
#[allow(non_snake_case)]
#[derive(Clone, Copy, Debug)]
pub struct ImageExportDirectory {
    pub Characteristics: u32,
    pub TimeDateStamp: u32,
    pub MajorVersion: u16,
    pub MinorVersion: u16,
    pub Name: u32,
    pub Base: u32,
    pub NumberOfFunctions: u32,
    pub NumberOfNames: u32,
    pub AddressOfFunctions: u32,
    pub AddressOfNames: u32,
    pub AddressOfNameOrdinals: u32,
}

/// One row of the import descriptor table.
#[allow(non_snake_case)]
#[derive(Clone, Copy, Debug)]
pub struct ImageImportDescriptor {
    pub OriginalFirstThunk: u32,
    pub TimeDateStamp: u32,
    pub ForwarderChain: u32,
    pub Name: u32,
    pub FirstThunk: u32,
}

/// The header of one base-relocation block.
#[allow(non_snake_case)]
#[derive(Clone, Copy, Debug)]
pub struct ImageBaseRelocation {
    pub VirtualAddress: u32,
    pub SizeOfBlock: u32,
}

/// One row of the debug directory.
#[allow(non_snake_case)]
#[derive(Clone, Copy, Debug)]
pub struct ImageDebugDirectory {
    pub Characteristics: u32,
    pub TimeDateStamp: u32,
    pub MajorVersion: u16,
    pub MinorVersion: u16,
    pub Type: u32,
    pub SizeOfData: u32,
    pub AddressOfRawData: u32,
    pub PointerToRawData: u32,
}

impl Pod for ImageDosHeader {
    open spec fn spec_size() -> int {
        64
    }

    open spec fn spec_align() -> int {
        4
    }

    open spec fn spec_read(b: Seq<u8>) -> ImageDosHeader {
        ImageDosHeader {
            e_magic: le16(b, 0) as u16,
            e_cblp: le16(b, 2) as u16,
            e_cp: le16(b, 4) as u16,
            e_crlc: le16(b, 6) as u16,
            e_cparhdr: le16(b, 8) as u16,
            e_minalloc: le16(b, 10) as u16,
            e_maxalloc: le16(b, 12) as u16,
            e_ss: le16(b, 14) as u16,
            e_sp: le16(b, 16) as u16,
            e_csum: le16(b, 18) as u16,
            e_ip: le16(b, 20) as u16,
            e_cs: le16(b, 22) as u16,
            e_lfarlc: le16(b, 24) as u16,
            e_ovno: le16(b, 26) as u16,
            e_res: [
                le16(b, 28) as u16,
                le16(b, 30) as u16,
                le16(b, 32) as u16,
                le16(b, 34) as u16,
            ],
            e_oemid: le16(b, 36) as u16,
            e_oeminfo: le16(b, 38) as u16,
            e_res2: [
                le16(b, 40) as u16,
                le16(b, 42) as u16,
                le16(b, 44) as u16,
                le16(b, 46) as u16,
                le16(b, 48) as u16,
                le16(b, 50) as u16,
                le16(b, 52) as u16,
                le16(b, 54) as u16,
                le16(b, 56) as u16,
                le16(b, 58) as u16,
            ],
            e_lfanew: le32(b, 60) as u32,
        }
    }

    fn pod_size() -> usize {
        64
    }

    fn pod_align() -> usize {
        4
    }

    fn read_from(b: &[u8]) -> ImageDosHeader {
        ImageDosHeader {
            e_magic: read_le16(b, 0),
            e_cblp: read_le16(b, 2),
            e_cp: read_le16(b, 4),
            e_crlc: read_le16(b, 6),
            e_cparhdr: read_le16(b, 8),
            e_minalloc: read_le16(b, 10),
            e_maxalloc: read_le16(b, 12),
            e_ss: read_le16(b, 14),
            e_sp: read_le16(b, 16),
            e_csum: read_le16(b, 18),
            e_ip: read_le16(b, 20),
            e_cs: read_le16(b, 22),
            e_lfarlc: read_le16(b, 24),
            e_ovno: read_le16(b, 26),
            e_res: [
                read_le16(b, 28),
                read_le16(b, 30),
                read_le16(b, 32),
                read_le16(b, 34),
            ],
            e_oemid: read_le16(b, 36),
            e_oeminfo: read_le16(b, 38),
            e_res2: [
                read_le16(b, 40),
                read_le16(b, 42),
                read_le16(b, 44),
                read_le16(b, 46),
                read_le16(b, 48),
                read_le16(b, 50),
                read_le16(b, 52),
                read_le16(b, 54),
                read_le16(b, 56),
                read_le16(b, 58),
            ],
            e_lfanew: read_le32(b, 60),
        }
    }
}

impl Pod for ImageFileHeader {
    open spec fn spec_size() -> int {
        20
    }

    open spec fn spec_align() -> int {
        4
    }

    open spec fn spec_read(b: Seq<u8>) -> ImageFileHeader {
        ImageFileHeader {
            Machine: le16(b, 0) as u16,
            NumberOfSections: le16(b, 2) as u16,
            TimeDateStamp: le32(b, 4) as u32,
            PointerToSymbolTable: le32(b, 8) as u32,
            NumberOfSymbols: le32(b, 12) as u32,
            SizeOfOptionalHeader: le16(b, 16) as u16,
            Characteristics: le16(b, 18) as u16,
        }
    }

    fn pod_size() -> usize {
        20
    }

    fn pod_align() -> usize {
        4
    }

    fn read_from(b: &[u8]) -> ImageFileHeader {
        ImageFileHeader {
            Machine: read_le16(b, 0),
            NumberOfSections: read_le16(b, 2),
            TimeDateStamp: read_le32(b, 4),
            PointerToSymbolTable: read_le32(b, 8),
            NumberOfSymbols: read_le32(b, 12),
            SizeOfOptionalHeader: read_le16(b, 16),
            Characteristics: read_le16(b, 18),
        }
    }
}

impl Pod for ImageOptionalHeader64 {
    open spec fn spec_size() -> int {
        112
    }

    open spec fn spec_align() -> int {
        8
    }

    open spec fn spec_read(b: Seq<u8>) -> ImageOptionalHeader64 {
        ImageOptionalHeader64 {
            Magic: le16(b, 0) as u16,
            MajorLinkerVersion: b[2],
            MinorLinkerVersion: b[3],
            SizeOfCode: le32(b, 4) as u32,
            SizeOfInitializedData: le32(b, 8) as u32,
            SizeOfUninitializedData: le32(b, 12) as u32,
            AddressOfEntryPoint: le32(b, 16) as u32,
            BaseOfCode: le32(b, 20) as u32,
            ImageBase: le64(b, 24) as u64,
            SectionAlignment: le32(b, 32) as u32,
            FileAlignment: le32(b, 36) as u32,
            MajorOperatingSystemVersion: le16(b, 40) as u16,
            MinorOperatingSystemVersion: le16(b, 42) as u16,
            MajorImageVersion: le16(b, 44) as u16,
            MinorImageVersion: le16(b, 46) as u16,
            MajorSubsystemVersion: le16(b, 48) as u16,
            MinorSubsystemVersion: le16(b, 50) as u16,
            Win32VersionValue: le32(b, 52) as u32,
            SizeOfImage: le32(b, 56) as u32,
            SizeOfHeaders: le32(b, 60) as u32,
            CheckSum: le32(b, 64) as u32,
            Subsystem: le16(b, 68) as u16,
            DllCharacteristics: le16(b, 70) as u16,
            SizeOfStackReserve: le64(b, 72) as u64,
            SizeOfStackCommit: le64(b, 80) as u64,
            SizeOfHeapReserve: le64(b, 88) as u64,
            SizeOfHeapCommit: le64(b, 96) as u64,
            LoaderFlags: le32(b, 104) as u32,
            NumberOfRvaAndSizes: le32(b, 108) as u32,
        }
    }

    fn pod_size() -> usize {
        112
    }

    fn pod_align() -> usize {
        8
    }

    fn read_from(b: &[u8]) -> ImageOptionalHeader64 {
        ImageOptionalHeader64 {
            Magic: read_le16(b, 0),
            MajorLinkerVersion: b[2],
            MinorLinkerVersion: b[3],
            SizeOfCode: read_le32(b, 4),
            SizeOfInitializedData: read_le32(b, 8),
            SizeOfUninitializedData: read_le32(b, 12),
            AddressOfEntryPoint: read_le32(b, 16),
            BaseOfCode: read_le32(b, 20),
            ImageBase: read_le64(b, 24),
            SectionAlignment: read_le32(b, 32),
            FileAlignment: read_le32(b, 36),
            MajorOperatingSystemVersion: read_le16(b, 40),
            MinorOperatingSystemVersion: read_le16(b, 42),
            MajorImageVersion: read_le16(b, 44),
            MinorImageVersion: read_le16(b, 46),
            MajorSubsystemVersion: read_le16(b, 48),
            MinorSubsystemVersion: read_le16(b, 50),
            Win32VersionValue: read_le32(b, 52),
            SizeOfImage: read_le32(b, 56),
            SizeOfHeaders: read_le32(b, 60),
            CheckSum: read_le32(b, 64),
            Subsystem: read_le16(b, 68),
            DllCharacteristics: read_le16(b, 70),
            SizeOfStackReserve: read_le64(b, 72),
            SizeOfStackCommit: read_le64(b, 80),
            SizeOfHeapReserve: read_le64(b, 88),
            SizeOfHeapCommit: read_le64(b, 96),
            LoaderFlags: read_le32(b, 104),
            NumberOfRvaAndSizes: read_le32(b, 108),
        }
    }
}

impl Pod for ImageDataDirectory {
    open spec fn spec_size() -> int {
        8
    }

    open spec fn spec_align() -> int {
        4
    }

    open spec fn spec_read(b: Seq<u8>) -> ImageDataDirectory {
        ImageDataDirectory { VirtualAddress: le32(b, 0) as u32, Size: le32(b, 4) as u32 }
    }

    fn pod_size() -> usize {
        8
    }

    fn pod_align() -> usize {
        4
    }

    fn read_from(b: &[u8]) -> ImageDataDirectory {
        ImageDataDirectory { VirtualAddress: read_le32(b, 0), Size: read_le32(b, 4) }
    }
}

impl Pod for ImageExportDirectory {
    open spec fn spec_size() -> int {
        40
    }

    open spec fn spec_align() -> int {
        4
    }

    open spec fn spec_read(b: Seq<u8>) -> ImageExportDirectory {
        ImageExportDirectory {
            Characteristics: le32(b, 0) as u32,
            TimeDateStamp: le32(b, 4) as u32,
            MajorVersion: le16(b, 8) as u16,
            MinorVersion: le16(b, 10) as u16,
            Name: le32(b, 12) as u32,
            Base: le32(b, 16) as u32,
            NumberOfFunctions: le32(b, 20) as u32,
            NumberOfNames: le32(b, 24) as u32,
            AddressOfFunctions: le32(b, 28) as u32,
            AddressOfNames: le32(b, 32) as u32,
            AddressOfNameOrdinals: le32(b, 36) as u32,
        }
    }

    fn pod_size() -> usize {
        40
    }

    fn pod_align() -> usize {
        4
    }

    fn read_from(b: &[u8]) -> ImageExportDirectory {
        ImageExportDirectory {
            Characteristics: read_le32(b, 0),
            TimeDateStamp: read_le32(b, 4),
            MajorVersion: read_le16(b, 8),
            MinorVersion: read_le16(b, 10),
            Name: read_le32(b, 12),
            Base: read_le32(b, 16),
            NumberOfFunctions: read_le32(b, 20),
            NumberOfNames: read_le32(b, 24),
            AddressOfFunctions: read_le32(b, 28),
            AddressOfNames: read_le32(b, 32),
            AddressOfNameOrdinals: read_le32(b, 36),
        }
    }
}

impl Pod for ImageImportDescriptor {
    open spec fn spec_size() -> int {
        20
    }

    open spec fn spec_align() -> int {
        4
    }

    open spec fn spec_read(b: Seq<u8>) -> ImageImportDescriptor {
        ImageImportDescriptor {
            OriginalFirstThunk: le32(b, 0) as u32,
            TimeDateStamp: le32(b, 4) as u32,
            ForwarderChain: le32(b, 8) as u32,
            Name: le32(b, 12) as u32,
            FirstThunk: le32(b, 16) as u32,
        }
    }

    fn pod_size() -> usize {
        20
    }

    fn pod_align() -> usize {
        4
    }

    fn read_from(b: &[u8]) -> ImageImportDescriptor {
        ImageImportDescriptor {
            OriginalFirstThunk: read_le32(b, 0),
            TimeDateStamp: read_le32(b, 4),
            ForwarderChain: read_le32(b, 8),
            Name: read_le32(b, 12),
            FirstThunk: read_le32(b, 16),
        }
    }
}

impl Pod for ImageBaseRelocation {
    open spec fn spec_size() -> int {
        8
    }

    open spec fn spec_align() -> int {
        4
    }

    open spec fn spec_read(b: Seq<u8>) -> ImageBaseRelocation {
        ImageBaseRelocation { VirtualAddress: le32(b, 0) as u32, SizeOfBlock: le32(b, 4) as u32 }
    }

    fn pod_size() -> usize {
        8
    }

    fn pod_align() -> usize {
        4
    }

    fn read_from(b: &[u8]) -> ImageBaseRelocation {
        ImageBaseRelocation { VirtualAddress: read_le32(b, 0), SizeOfBlock: read_le32(b, 4) }
    }
}

impl Pod for ImageDebugDirectory {
    open spec fn spec_size() -> int {
        28
    }

    open spec fn spec_align() -> int {
        4
    }

    open spec fn spec_read(b: Seq<u8>) -> ImageDebugDirectory {
        ImageDebugDirectory {
            Characteristics: le32(b, 0) as u32,
            TimeDateStamp: le32(b, 4) as u32,
            MajorVersion: le16(b, 8) as u16,
            MinorVersion: le16(b, 10) as u16,
            Type: le32(b, 12) as u32,
            SizeOfData: le32(b, 16) as u32,
            AddressOfRawData: le32(b, 20) as u32,
            PointerToRawData: le32(b, 24) as u32,
        }
    }

    fn pod_size() -> usize {
        28
    }

    fn pod_align() -> usize {
        4
    }

    fn read_from(b: &[u8]) -> ImageDebugDirectory {
        ImageDebugDirectory {
            Characteristics: read_le32(b, 0),
            TimeDateStamp: read_le32(b, 4),
            MajorVersion: read_le16(b, 8),
            MinorVersion: read_le16(b, 10),
            Type: read_le32(b, 12),
            SizeOfData: read_le32(b, 16),
            AddressOfRawData: read_le32(b, 20),
            PointerToRawData: read_le32(b, 24),
        }
    }
}

impl Pod for ImageSectionHeader {
    open spec fn spec_size() -> int {
        40
    }

    open spec fn spec_align() -> int {
        4
    }

    open spec fn spec_read(b: Seq<u8>) -> ImageSectionHeader {
        ImageSectionHeader {
            Name: [b[0], b[1], b[2], b[3], b[4], b[5], b[6], b[7]],
            VirtualSize: le32(b, 8) as u32,
            VirtualAddress: le32(b, 12) as u32,
            SizeOfRawData: le32(b, 16) as u32,
            PointerToRawData: le32(b, 20) as u32,
            PointerToRelocations: le32(b, 24) as u32,
            PointerToLinenumbers: le32(b, 28) as u32,
            NumberOfRelocations: le16(b, 32) as u16,
            NumberOfLinenumbers: le16(b, 34) as u16,
            Characteristics: le32(b, 36) as u32,
        }
    }

    fn pod_size() -> usize {
        40
    }

    fn pod_align() -> usize {
        4
    }

    fn read_from(b: &[u8]) -> ImageSectionHeader {
        ImageSectionHeader {
            Name: [b[0], b[1], b[2], b[3], b[4], b[5], b[6], b[7]],
            VirtualSize: read_le32(b, 8),
            VirtualAddress: read_le32(b, 12),
            SizeOfRawData: read_le32(b, 16),
            PointerToRawData: read_le32(b, 20),
            PointerToRelocations: read_le32(b, 24),
            PointerToLinenumbers: read_le32(b, 28),
            NumberOfRelocations: read_le16(b, 32),
            NumberOfLinenumbers: read_le16(b, 34),
            Characteristics: read_le32(b, 36),
        }
    }
}

} // verus!
