//! The headers of a 64-bit ELF file, read from the bytes of the file.

use crate::mem::{le16, le32, le64};
use vstd::prelude::*;

verus! {

pub const EI_NIDENT: usize = 16;

/// The four bytes that an ELF file begins with.
pub const ELFMAG: [u8; 4] = [0x7f, 0x45, 0x4c, 0x46];

pub const EM_RISCV: u16 = 243;

pub const EI_CLASS: usize = 4;

pub const ELFCLASSNONE: u8 = 0;

pub const ELFCLASS32: u8 = 1;

pub const ELFCLASS64: u8 = 2;

pub const ELFCLASSNUM: u8 = 3;

pub const PT_LOAD: u32 = 1;

pub const PF_X: u32 = 0x1;

pub const PF_W: u32 = 0x2;

pub const PF_R: u32 = 0x4;

/// How many bytes the file header takes.
pub const EHDR_SIZE: usize = 64;

/// How many bytes a program header takes.
pub const PHDR_SIZE: usize = 56;

/// The header of a 64-bit ELF file.
#[derive(Copy, Clone, Debug, PartialEq, Eq)]
pub struct elf64_ehdr_t {
    pub e_ident: [u8; 16],
    pub e_type: u16,
    pub e_machine: u16,
    pub e_version: u32,
    pub e_entry: u64,
    pub e_phoff: u64,
    pub e_shoff: u64,
    pub e_flags: u32,
    pub e_ehsize: u16,
    pub e_phentsize: u16,
    pub e_phnum: u16,
    pub e_shentsize: u16,
    pub e_shnum: u16,
    pub e_shstrndx: u16,
}

/// One program header of a 64-bit ELF file: a segment of the file and where
/// in memory it belongs.
#[derive(Copy, Clone, Debug, PartialEq, Eq, Structural)]
pub struct elf64_phdr_t {
    pub p_type: u32,
    pub p_flags: u32,
    pub p_offset: u64,
    pub p_vaddr: u64,
    pub p_paddr: u64,
    pub p_filesz: u64,
    pub p_memsz: u64,
    pub p_align: u64,
}

/// The host's flags for the protection of a mapping: one each for reading,
/// writing and executing.
#[derive(Copy, Clone, Debug, PartialEq, Eq, Structural)]
pub struct host_prot_t {
    pub read: i32,
    pub write: i32,
    pub execute: i32,
}

/// `bit` if the segment flags `flags` have the flag `flag`, else no bit.
pub open spec fn prot_if(flags: u32, flag: u32, bit: i32) -> i32 {
    if flags & flag != 0 {
        bit
    } else {
        0
    }
}

/// The protection that the segment flags `flags` ask for, in the host's
/// flags: the host's flag for each of readable, writable and executable
/// that is set.
pub open spec fn mmap_prot_spec(flags: u32, host: host_prot_t) -> i32 {
    prot_if(flags, PF_R, host.read) | prot_if(flags, PF_W, host.write) | prot_if(
        flags,
        PF_X,
        host.execute,
    )
}

/// Turns the flags of a segment into the host's flags for the protection of
/// a mapping.
pub fn flags_to_mmap_prot(flags: u32, host: &host_prot_t) -> (r: i32)
    ensures
        r == mmap_prot_spec(flags, *host),
{
    (if flags & PF_R != 0 {
        host.read
    } else {
        0
    }) | (if flags & PF_W != 0 {
        host.write
    } else {
        0
    }) | (if flags & PF_X != 0 {
        host.execute
    } else {
        0
    })
}

/// Reads two bytes from `at` on as a little-endian number.
pub fn read_le16(bytes: &[u8], at: usize) -> (r: u16)
    requires
        at + 2 <= bytes@.len(),
    ensures
        r == le16(bytes@, at as int),
{
    bytes[at] as u16 + 0x100 * (bytes[at + 1] as u16)
}

/// Reads four bytes from `at` on as a little-endian number.
pub fn read_le32(bytes: &[u8], at: usize) -> (r: u32)
    requires
        at + 4 <= bytes@.len(),
    ensures
        r == le32(bytes@, at as int),
{
    let low: u32 = bytes[at] as u32 + 0x100 * (bytes[at + 1] as u32);
    let high: u32 = bytes[at + 2] as u32 + 0x100 * (bytes[at + 3] as u32);
    low + 0x1_0000 * high
}

/// Reads eight bytes from `at` on as a little-endian number.
pub fn read_le64(bytes: &[u8], at: usize) -> (r: u64)
    requires
        at + 8 <= bytes@.len(),
    ensures
        r == le64(bytes@, at as int),
{
    let b0: u64 = bytes[at] as u64 + 0x100 * (bytes[at + 1] as u64);
    let b1: u64 = bytes[at + 2] as u64 + 0x100 * (bytes[at + 3] as u64);
    let b2: u64 = bytes[at + 4] as u64 + 0x100 * (bytes[at + 5] as u64);
    let b3: u64 = bytes[at + 6] as u64 + 0x100 * (bytes[at + 7] as u64);
    let low: u64 = b0 + 0x1_0000 * b1;
    let high: u64 = b2 + 0x1_0000 * b3;
    low + 0x1_0000_0000 * high
}

impl elf64_ehdr_t {
    /// The header that the first 64 bytes of `s` hold, field after field,
    /// each number little-endian.
    pub open spec fn holds(self, s: Seq<u8>) -> bool {
        &&& self.e_ident@ == s.subrange(0, 16)
        &&& self.e_type == le16(s, 16)
        &&& self.e_machine == le16(s, 18)
        &&& self.e_version == le32(s, 20)
        &&& self.e_entry == le64(s, 24)
        &&& self.e_phoff == le64(s, 32)
        &&& self.e_shoff == le64(s, 40)
        &&& self.e_flags == le32(s, 48)
        &&& self.e_ehsize == le16(s, 52)
        &&& self.e_phentsize == le16(s, 54)
        &&& self.e_phnum == le16(s, 56)
        &&& self.e_shentsize == le16(s, 58)
        &&& self.e_shnum == le16(s, 60)
        &&& self.e_shstrndx == le16(s, 62)
    }

    /// Reads the file header from the beginning of `elf`, or returns `None`
    /// where the file is shorter than a header.
    pub fn parse(elf: &[u8]) -> (r: Option<elf64_ehdr_t>)
        ensures
            r is Some <==> elf@.len() >= EHDR_SIZE,
            r matches Some(h) ==> h.holds(elf@),
    {
        if elf.len() < EHDR_SIZE {
            return None;
        }
        let e_ident: [u8; 16] = [
            elf[0],
            elf[1],
            elf[2],
            elf[3],
            elf[4],
            elf[5],
            elf[6],
            elf[7],
            elf[8],
            elf[9],
            elf[10],
            elf[11],
            elf[12],
            elf[13],
            elf[14],
            elf[15],
        ];
        assert(e_ident@ =~= elf@.subrange(0, 16));
        Some(
            elf64_ehdr_t {
                e_ident,
                e_type: read_le16(elf, 16),
                e_machine: read_le16(elf, 18),
                e_version: read_le32(elf, 20),
                e_entry: read_le64(elf, 24),
                e_phoff: read_le64(elf, 32),
                e_shoff: read_le64(elf, 40),
                e_flags: read_le32(elf, 48),
                e_ehsize: read_le16(elf, 52),
                e_phentsize: read_le16(elf, 54),
                e_phnum: read_le16(elf, 56),
                e_shentsize: read_le16(elf, 58),
                e_shnum: read_le16(elf, 60),
                e_shstrndx: read_le16(elf, 62),
            },
        )
    }

    /// Where in the file the program header with the number `index` begins.
    pub open spec fn phdr_at(self, index: int) -> int {
        self.e_phoff + index * self.e_phentsize
    }
}

impl elf64_phdr_t {
    /// The program header that the 56 bytes of `s` from `at` on hold, field
    /// after field, each number little-endian.
    pub open spec fn read_from(s: Seq<u8>, at: int) -> elf64_phdr_t {
        elf64_phdr_t {
            p_type: le32(s, at) as u32,
            p_flags: le32(s, at + 4) as u32,
            p_offset: le64(s, at + 8) as u64,
            p_vaddr: le64(s, at + 16) as u64,
            p_paddr: le64(s, at + 24) as u64,
            p_filesz: le64(s, at + 32) as u64,
            p_memsz: le64(s, at + 40) as u64,
            p_align: le64(s, at + 48) as u64,
        }
    }

    /// Reads the program header with the number `phdr_index` out of the
    /// file `elf`. Where it does not lie within the file, returns `false`
    /// and leaves the header as it is.
    pub fn load_phdr(&mut self, ehdr_t: &elf64_ehdr_t, phdr_index: i64, elf: &[u8]) -> (ok: bool)
        ensures
            ok == (phdr_index >= 0 && ehdr_t.phdr_at(phdr_index as int) + PHDR_SIZE
                <= elf@.len()),
            *final(self) == (if ok {
                elf64_phdr_t::read_from(elf@, ehdr_t.phdr_at(phdr_index as int))
            } else {
                *old(self)
            }),
    {
        if phdr_index < 0 {
            return false;
        }
        assert(phdr_index * ehdr_t.e_phentsize <= 0x7fff_ffff_ffff_ffff * 0xffff) by (nonlinear_arith)
            requires
                0 <= phdr_index <= 0x7fff_ffff_ffff_ffff,
                0 <= ehdr_t.e_phentsize <= 0xffff,
        ;
        let step: u128 = (phdr_index as u128) * (ehdr_t.e_phentsize as u128);
        let at: u128 = ehdr_t.e_phoff as u128 + step;
        if at > elf.len() as u128 || (elf.len() as u128) - at < PHDR_SIZE as u128 {
            return false;
        }
        let at: usize = at as usize;
        *self = elf64_phdr_t {
            p_type: read_le32(elf, at),
            p_flags: read_le32(elf, at + 4),
            p_offset: read_le64(elf, at + 8),
            p_vaddr: read_le64(elf, at + 16),
            p_paddr: read_le64(elf, at + 24),
            p_filesz: read_le64(elf, at + 32),
            p_memsz: read_le64(elf, at + 40),
            p_align: read_le64(elf, at + 48),
        };
        true
    }
}

} // verus!
