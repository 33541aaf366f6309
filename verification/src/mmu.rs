//! The bookkeeping of the guest's address space: loading the segments of a
//! program, and the bump allocator behind them.

use crate::elf::{
    EHDR_SIZE, EI_CLASS, elf64_ehdr_t, elf64_phdr_t, ELFCLASS64, EM_RISCV, PHDR_SIZE, PT_LOAD,
};
use crate::machine::{GUEST_MEMORY_OFFSET, to_guest_addr, to_host_addr};
use crate::mem::{guest_mem_t, le16, le64, place, window_t, zeros};
use crate::utils::{clear_low, is_pow2, round_down, round_up};
use vstd::prelude::*;
use vstd::slice::slice_subrange;

verus! {

/// The bookkeeping of the guest's address space: where the program starts,
/// up to which host address memory is set aside, and the guest's bump
/// allocator, which hands out what lies between `base` and `alloc`.
#[derive(Copy, Clone, Debug, PartialEq, Eq, Structural)]
pub struct mmu_t {
    pub entry: u64,
    pub host_alloc: u64,
    pub alloc: u64,
    pub base: u64,
}

/// Why a program could not be loaded.
#[derive(Copy, Clone, Debug, PartialEq, Eq, Structural)]
pub enum load_error_t {
    /// The file is shorter than the four bytes that mark an ELF file.
    too_short,
    /// The file does not begin with the mark of an ELF file.
    not_elf,
    /// The file ends within its header.
    truncated,
    /// The file is not a 64-bit program for RISC-V.
    not_riscv64,
    /// A program header does not lie within the file.
    bad_phdr,
    /// A segment does not lie within the file, or its place in memory
    /// cannot be had.
    bad_segment,
}

/// How a load ends: what it leaves of the bookkeeping and of the memory,
/// and, unless every segment was loaded, why it stopped.
pub struct loaded_t {
    pub mmu: mmu_t,
    pub mem: window_t,
    pub end: Option<load_error_t>,
}

/// The larger of two addresses.
pub open spec fn later(a: int, b: int) -> int {
    if a >= b {
        a
    } else {
        b
    }
}

/// The host address of the first byte of the segment `ph`.
pub open spec fn segment_host(ph: elf64_phdr_t) -> int {
    ph.p_vaddr + GUEST_MEMORY_OFFSET
}

/// The host address of the page in which the segment `ph` begins.
pub open spec fn segment_page(ph: elf64_phdr_t, page: u64) -> u64 {
    clear_low(segment_host(ph) as u64, page)
}

/// How many bytes the pages of the segment `ph` take, from the page in
/// which it begins to the end of the page in which it ends.
pub open spec fn segment_span(ph: elf64_phdr_t, page: u64) -> u64 {
    clear_low((ph.p_memsz + (segment_host(ph) - segment_page(ph, page)) + page - 1) as u64, page)
}

/// The host address behind the last page of the segment `ph`.
pub open spec fn segment_end(ph: elf64_phdr_t, page: u64) -> int {
    segment_page(ph, page) + segment_span(ph, page)
}

/// The segment `ph` can be loaded over the memory `w` from a file of
/// `elf_len` bytes: it lies within the file, it is not larger in the file
/// than in memory, it begins in or behind the window, and the window can
/// reach the end of its last page.
pub open spec fn segment_fits(w: window_t, ph: elf64_phdr_t, elf_len: nat, page: u64) -> bool {
    &&& is_pow2(page)
    &&& w.host_base <= segment_host(ph)
    &&& ph.p_filesz <= ph.p_memsz
    &&& ph.p_offset + ph.p_filesz <= elf_len
    &&& segment_host(ph) + ph.p_memsz + page - 1 <= u64::MAX
    &&& segment_end(ph, page) <= u64::MAX
    &&& w.can_reach(segment_end(ph, page))
}

/// The memory with the segment `ph` of the file `elf` loaded: the window
/// reaches the end of the segment's last page, what the file holds of the
/// segment stands at its address, and the rest of the segment is zero.
pub open spec fn segment_mem(w: window_t, ph: elf64_phdr_t, elf: Seq<u8>, page: u64) -> window_t {
    let end = later(w.host_end(), segment_end(ph, page));
    let grown = w.bytes + zeros((end - w.host_end()) as nat);
    let at = segment_host(ph) - w.host_base;
    let filled = place(
        grown,
        at,
        elf.subrange(ph.p_offset as int, ph.p_offset + ph.p_filesz),
    );
    window_t {
        bytes: place(filled, at + ph.p_filesz, zeros((ph.p_memsz - ph.p_filesz) as nat)),
        ..w
    }
}

/// The bookkeeping after the segment `ph` is loaded: memory is set aside up
/// to the end of the segment's last page at least, and the allocator starts
/// there.
pub open spec fn segment_mmu(m: mmu_t, ph: elf64_phdr_t, page: u64) -> mmu_t {
    let host_alloc = later(m.host_alloc as int, segment_end(ph, page)) as u64;
    mmu_t {
        host_alloc,
        alloc: (host_alloc - GUEST_MEMORY_OFFSET) as u64,
        base: (host_alloc - GUEST_MEMORY_OFFSET) as u64,
        ..m
    }
}

/// What loading the program header that stands at `at` in the file `elf`
/// leaves of `before`. A header that is no segment to load changes nothing;
/// one that does not lie within the file, and a segment that cannot be
/// loaded, stop the load. Once the load has stopped nothing changes.
#[verifier::opaque]
pub open spec fn header_loaded(before: loaded_t, elf: Seq<u8>, at: int, page: u64) -> loaded_t {
    let ph = elf64_phdr_t::read_from(elf, at);
    if before.end is Some {
        before
    } else if at + PHDR_SIZE > elf.len() {
        loaded_t { end: Some(load_error_t::bad_phdr), ..before }
    } else if ph.p_type != PT_LOAD {
        before
    } else if !segment_fits(before.mem, ph, elf.len(), page) {
        loaded_t { end: Some(load_error_t::bad_segment), ..before }
    } else {
        loaded_t {
            mmu: segment_mmu(before.mmu, ph, page),
            mem: segment_mem(before.mem, ph, elf, page),
            end: None,
        }
    }
}

/// What loading the first `k` program headers of the file `elf` leaves.
/// The headers stand `phentsize` bytes apart from `phoff` on.
pub open spec fn headers_loaded(
    m: mmu_t,
    w: window_t,
    elf: Seq<u8>,
    phoff: u64,
    phentsize: u16,
    page: u64,
    k: nat,
) -> loaded_t
    decreases k,
{
    if k == 0 {
        loaded_t { mmu: m, mem: w, end: None }
    } else {
        header_loaded(
            headers_loaded(m, w, elf, phoff, phentsize, page, (k - 1) as nat),
            elf,
            phoff + (k - 1) * phentsize,
            page,
        )
    }
}

/// A load that has stopped stays as it is, however many headers follow.
pub proof fn lemma_load_stays_stopped(
    m: mmu_t,
    w: window_t,
    elf: Seq<u8>,
    phoff: u64,
    phentsize: u16,
    page: u64,
    k: nat,
    n: nat,
)
    requires
        k <= n,
        headers_loaded(m, w, elf, phoff, phentsize, page, k).end is Some,
    ensures
        headers_loaded(m, w, elf, phoff, phentsize, page, n) == headers_loaded(
            m,
            w,
            elf,
            phoff,
            phentsize,
            page,
            k,
        ),
    decreases n - k,
{
    reveal(header_loaded);
    if k < n {
        lemma_load_stays_stopped(m, w, elf, phoff, phentsize, page, k, (n - 1) as nat);
    }
}

/// `Ok` where a load went through, else why it stopped.
pub open spec fn load_result(end: Option<load_error_t>) -> Result<(), load_error_t> {
    match end {
        Some(e) => Err(e),
        None => Ok(()),
    }
}

/// The file begins with the four bytes that mark an ELF file.
pub open spec fn has_magic(elf: Seq<u8>) -> bool {
    elf[0] == 0x7f && elf[1] == 0x45 && elf[2] == 0x4c && elf[3] == 0x46
}

/// What loading the file `elf` leaves: its entry point is noted and its
/// segments are loaded one after the other, if it is a 64-bit program for
/// RISC-V; else nothing changes.
pub open spec fn elf_loaded(m: mmu_t, w: window_t, elf: Seq<u8>, page: u64) -> loaded_t {
    if elf.len() < 4 {
        loaded_t { mmu: m, mem: w, end: Some(load_error_t::too_short) }
    } else if !has_magic(elf) {
        loaded_t { mmu: m, mem: w, end: Some(load_error_t::not_elf) }
    } else if elf.len() < EHDR_SIZE {
        loaded_t { mmu: m, mem: w, end: Some(load_error_t::truncated) }
    } else if le16(elf, 18) != EM_RISCV || elf[EI_CLASS as int] != ELFCLASS64 {
        loaded_t { mmu: m, mem: w, end: Some(load_error_t::not_riscv64) }
    } else {
        headers_loaded(
            mmu_t { entry: le64(elf, 24) as u64, ..m },
            w,
            elf,
            le64(elf, 32) as u64,
            le16(elf, 54) as u16,
            page,
            le16(elf, 56) as nat,
        )
    }
}

/// As far as the allocator's own state goes, `size` more bytes can be
/// handed out: `size` is not negative, the break is not below where the
/// allocator started, and it does not pass the last address.
pub open spec fn alloc_in_range(m: mmu_t, size: i64) -> bool {
    size >= 0 && m.base <= m.alloc && m.alloc + size <= u64::MAX
}

/// The allocator can hand out `size` more bytes: its own state allows it,
/// and where memory has to be set aside for them, pages have a size that
/// is a power of two and the window can reach that far. Where nothing has
/// to be set aside, the size of a page plays no part.
pub open spec fn alloc_fits(m: mmu_t, w: window_t, size: i64, page: u64) -> bool {
    &&& alloc_in_range(m, size)
    &&& alloc_grows(m, size) ==> {
        &&& is_pow2(page)
        &&& GUEST_MEMORY_OFFSET <= m.host_alloc
        &&& size + page - 1 <= u64::MAX
        &&& m.host_alloc + clear_low((size + page - 1) as u64, page) <= u64::MAX
        &&& w.can_reach(m.host_alloc + clear_low((size + page - 1) as u64, page))
    }
}

/// Handing out `size` more bytes takes the break above what is set aside.
pub open spec fn alloc_grows(m: mmu_t, size: i64) -> bool {
    size > 0 && m.alloc + size > m.host_alloc - GUEST_MEMORY_OFFSET
}

/// The bookkeeping after `size` bytes are handed out: the break is `size`
/// higher, and where it passed what was set aside, `size` rounded up to
/// whole pages is set aside behind that.
pub open spec fn alloc_mmu(m: mmu_t, size: i64, page: u64) -> mmu_t {
    mmu_t {
        alloc: (m.alloc + size) as u64,
        host_alloc: if alloc_grows(m, size) {
            (m.host_alloc + clear_low((size + page - 1) as u64, page)) as u64
        } else {
            m.host_alloc
        },
        ..m
    }
}

/// The memory after `size` bytes are handed out: where more was set aside,
/// the window reaches to the end of it, with zeros in what is new.
pub open spec fn alloc_mem(m: mmu_t, w: window_t, size: i64, page: u64) -> window_t {
    let end = later(w.host_end(), alloc_mmu(m, size, page).host_alloc as int);
    if alloc_grows(m, size) {
        window_t { bytes: w.bytes + zeros((end - w.host_end()) as nat), ..w }
    } else {
        w
    }
}

/// The size of a page of the host's memory, from `page_size::get`, which
/// asks the operating system. Nothing is claimed of the number.
#[verifier::external_body]
pub(crate) fn host_page_size() -> (r: usize) {
    page_size::get()
}

impl mmu_t {
    /// The bookkeeping before a program is loaded: all zero.
    pub fn new() -> (r: mmu_t)
        ensures
            r == (mmu_t { entry: 0, host_alloc: 0, alloc: 0, base: 0 }),
    {
        mmu_t { entry: 0, host_alloc: 0, alloc: 0, base: 0 }
    }

    /// The guest address at which the loaded program starts.
    pub fn get_entry(&self) -> (r: u64)
        ensures
            r == self.entry,
    {
        self.entry
    }

    /// Loads the segment `phdr` of the file `elf` into the memory, with
    /// pages of `page` bytes. Returns `false`, and changes nothing, where
    /// the segment cannot be loaded.
    pub fn mmu_load_segment(
        &mut self,
        mem: &mut guest_mem_t,
        phdr: &elf64_phdr_t,
        elf: &[u8],
        page: u64,
    ) -> (ok: bool)
        requires
            old(mem).wf(),
        ensures
            final(mem).wf(),
            ok == segment_fits(old(mem)@, *phdr, elf@.len(), page),
            *final(self) == (if ok {
                segment_mmu(*old(self), *phdr, page)
            } else {
                *old(self)
            }),
            final(mem)@ == (if ok {
                segment_mem(old(mem)@, *phdr, elf@, page)
            } else {
                old(mem)@
            }),
    {
        if page == 0 || page & (page - 1) != 0 {
            return false;
        }
        if phdr.p_vaddr > u64::MAX - GUEST_MEMORY_OFFSET {
            return false;
        }
        let host: u64 = to_host_addr(phdr.p_vaddr);
        if host < mem.host_base || phdr.p_filesz > phdr.p_memsz {
            return false;
        }
        let elf_len: u64 = elf.len() as u64;
        if phdr.p_offset > elf_len || elf_len - phdr.p_offset < phdr.p_filesz {
            return false;
        }
        if phdr.p_memsz > u64::MAX - host || host + phdr.p_memsz > u64::MAX - (page - 1) {
            return false;
        }
        let aligned: u64 = round_down(host, page);
        let span: u64 = round_up(phdr.p_memsz + (host - aligned), page);
        if span > u64::MAX - aligned {
            return false;
        }
        let seg_end: u64 = aligned + span;
        if !mem.extend_to(seg_end) {
            return false;
        }
        let file = slice_subrange(
            elf,
            phdr.p_offset as usize,
            (phdr.p_offset + phdr.p_filesz) as usize,
        );
        let filled = mem.write_bytes(phdr.p_vaddr, file);
        let cleared = mem.clear_bytes(phdr.p_vaddr + phdr.p_filesz, phdr.p_memsz - phdr.p_filesz);
        assert(filled && cleared);
        self.host_alloc = if self.host_alloc >= seg_end {
            self.host_alloc
        } else {
            seg_end
        };
        self.alloc = to_guest_addr(self.host_alloc);
        self.base = self.alloc;
        true
    }

    /// Reads the program header with the number `index` out of the file
    /// `elf` and, if it is a segment to load, loads the segment, with pages
    /// of `page` bytes.
    pub fn mmu_load_header(
        &mut self,
        mem: &mut guest_mem_t,
        ehdr: &elf64_ehdr_t,
        index: u16,
        elf: &[u8],
        page: u64,
    ) -> (r: Result<(), load_error_t>)
        requires
            old(mem).wf(),
        ensures
            final(mem).wf(),
            ({
                let l = header_loaded(
                    loaded_t { mmu: *old(self), mem: old(mem)@, end: None },
                    elf@,
                    ehdr.phdr_at(index as int),
                    page,
                );
                &&& *final(self) == l.mmu
                &&& final(mem)@ == l.mem
                &&& r == load_result(l.end)
            }),
    {
        proof {
            reveal(header_loaded);
        }
        let mut phdr = elf64_phdr_t {
            p_type: 0,
            p_flags: 0,
            p_offset: 0,
            p_vaddr: 0,
            p_paddr: 0,
            p_filesz: 0,
            p_memsz: 0,
            p_align: 0,
        };
        if !phdr.load_phdr(ehdr, index as i64, elf) {
            return Err(load_error_t::bad_phdr);
        }
        if phdr.p_type == PT_LOAD {
            if !self.mmu_load_segment(mem, &phdr, elf, page) {
                return Err(load_error_t::bad_segment);
            }
        }
        Ok(())
    }

    /// Loads the program in the file `elf` into the memory, with pages of
    /// `page` bytes: checks that the file is a 64-bit program for RISC-V,
    /// notes its entry point, and loads its segments one after the other.
    /// At the first header or segment that cannot be loaded it stops, with
    /// the segments before it loaded.
    pub fn mmu_load_elf_with(&mut self, mem: &mut guest_mem_t, elf: &[u8], page: u64) -> (r: Result<
        (),
        load_error_t,
    >)
        requires
            old(mem).wf(),
        ensures
            final(mem).wf(),
            *final(self) == elf_loaded(*old(self), old(mem)@, elf@, page).mmu,
            final(mem)@ == elf_loaded(*old(self), old(mem)@, elf@, page).mem,
            r == load_result(elf_loaded(*old(self), old(mem)@, elf@, page).end),
    {
        if elf.len() < 4 {
            return Err(load_error_t::too_short);
        }
        if elf[0] != 0x7f || elf[1] != 0x45 || elf[2] != 0x4c || elf[3] != 0x46 {
            return Err(load_error_t::not_elf);
        }
        let ehdr: elf64_ehdr_t = match elf64_ehdr_t::parse(elf) {
            Some(ehdr) => ehdr,
            None => {
                return Err(load_error_t::truncated);
            },
        };
        if ehdr.e_machine != EM_RISCV || ehdr.e_ident[EI_CLASS] != ELFCLASS64 {
            return Err(load_error_t::not_riscv64);
        }
        self.entry = ehdr.e_entry;
        let ghost m0 = *self;
        let ghost w0 = mem@;
        let ghost all = elf_loaded(*old(self), old(mem)@, elf@, page);
        assert(all == headers_loaded(
            m0,
            w0,
            elf@,
            ehdr.e_phoff,
            ehdr.e_phentsize,
            page,
            ehdr.e_phnum as nat,
        ));
        let mut i: u16 = 0;
        while i < ehdr.e_phnum
            invariant
                i <= ehdr.e_phnum,
                mem.wf(),
                all == elf_loaded(*old(self), old(mem)@, elf@, page),
                all == headers_loaded(
                    m0,
                    w0,
                    elf@,
                    ehdr.e_phoff,
                    ehdr.e_phentsize,
                    page,
                    ehdr.e_phnum as nat,
                ),
                headers_loaded(m0, w0, elf@, ehdr.e_phoff, ehdr.e_phentsize, page, i as nat) == (
                loaded_t { mmu: *self, mem: mem@, end: None }),
            ensures
                i == ehdr.e_phnum,
            decreases ehdr.e_phnum - i,
        {
            let r = self.mmu_load_header(mem, &ehdr, i, elf, page);
            i = i + 1;
            assert(ehdr.phdr_at(i - 1) == ehdr.e_phoff + (i - 1) * ehdr.e_phentsize);
            match r {
                Ok(()) => {},
                Err(e) => {
                    proof {
                        lemma_load_stays_stopped(
                            m0,
                            w0,
                            elf@,
                            ehdr.e_phoff,
                            ehdr.e_phentsize,
                            page,
                            i as nat,
                            ehdr.e_phnum as nat,
                        );
                    }
                    return Err(e);
                },
            }
        }
        Ok(())
    }

    /// Loads the program in the file `elf` into the memory, with pages as
    /// large as the host's.
    pub fn mmu_load_elf(&mut self, mem: &mut guest_mem_t, elf: &[u8]) -> (r: Result<
        (),
        load_error_t,
    >)
        requires
            old(mem).wf(),
        ensures
            final(mem).wf(),
            exists|page: u64|
                {
                    let l = #[trigger] elf_loaded(*old(self), old(mem)@, elf@, page);
                    &&& *final(self) == l.mmu
                    &&& final(mem)@ == l.mem
                    &&& r == load_result(l.end)
                },
    {
        let page: u64 = host_page_size() as u64;
        self.mmu_load_elf_with(mem, elf, page)
    }

    /// Hands out the next `size` bytes of the guest's address space and
    /// returns the guest address at which they begin. Where the break
    /// passes what is set aside, `size` rounded up to whole pages of `page`
    /// bytes is set aside behind that. Returns `None`, and changes nothing,
    /// where the bytes cannot be handed out.
    pub fn mmu_alloc_with(&mut self, mem: &mut guest_mem_t, size: i64, page: u64) -> (r: Option<u64>)
        requires
            old(mem).wf(),
        ensures
            final(mem).wf(),
            r == (if alloc_fits(*old(self), old(mem)@, size, page) {
                Some(old(self).alloc)
            } else {
                None
            }),
            *final(self) == (if r is Some {
                alloc_mmu(*old(self), size, page)
            } else {
                *old(self)
            }),
            final(mem)@ == (if r is Some {
                alloc_mem(*old(self), old(mem)@, size, page)
            } else {
                old(mem)@
            }),
    {
        if size < 0 || self.alloc < self.base {
            return None;
        }
        let want: u64 = size as u64;
        if want > u64::MAX - self.alloc {
            return None;
        }
        let base: u64 = self.alloc;
        let alloc: u64 = self.alloc + want;
        let ghost before = mem@;
        if want > 0 && (self.host_alloc < GUEST_MEMORY_OFFSET || alloc > to_guest_addr(
            self.host_alloc,
        )) {
            if self.host_alloc < GUEST_MEMORY_OFFSET || page == 0 || page & (page - 1) != 0 {
                return None;
            }
            if want > u64::MAX - (page - 1) {
                return None;
            }
            let more: u64 = round_up(want, page);
            if more > u64::MAX - self.host_alloc {
                return None;
            }
            let host_alloc: u64 = self.host_alloc + more;
            if !mem.extend_to(host_alloc) {
                return None;
            }
            self.host_alloc = host_alloc;
        }
        assert(mem@.bytes =~= alloc_mem(*old(self), before, size, page).bytes);
        self.alloc = alloc;
        Some(base)
    }

    /// Hands out the next `size` bytes of the guest's address space, with
    /// pages as large as the host's, and returns the guest address at which
    /// they begin. Where the allocator's own state does not allow it, the
    /// result is `None`. Where it does and the bytes lie within what is set
    /// aside already, they are handed out whatever the size of a page: the
    /// break is `size` higher and nothing else changes. Only where memory
    /// has to be set aside does the host's page size decide. `None` changes
    /// nothing.
    pub fn mmu_alloc(&mut self, mem: &mut guest_mem_t, size: i64) -> (r: Option<u64>)
        requires
            old(mem).wf(),
        ensures
            final(mem).wf(),
            !alloc_in_range(*old(self), size) ==> r is None,
            alloc_in_range(*old(self), size) && !alloc_grows(*old(self), size) ==> r == Some(
                old(self).alloc,
            ) && *final(self) == (mmu_t { alloc: (old(self).alloc + size) as u64, ..*old(self) })
                && final(mem)@ == old(mem)@,
            r is None ==> *final(self) == *old(self) && final(mem)@ == old(mem)@,
            r matches Some(at) ==> at == old(self).alloc && (exists|page: u64|
                {
                    &&& #[trigger] alloc_fits(*old(self), old(mem)@, size, page)
                    &&& *final(self) == alloc_mmu(*old(self), size, page)
                    &&& final(mem)@ == alloc_mem(*old(self), old(mem)@, size, page)
                }),
    {
        let page: u64 = host_page_size() as u64;
        self.mmu_alloc_with(mem, size, page)
    }

    /// Copies `data` into the memory from the guest address `addr` on.
    /// Returns `false`, and changes nothing, if not all of it lies in the
    /// memory.
    pub fn mmu_write(mem: &mut guest_mem_t, addr: u64, data: &[u8]) -> (ok: bool)
        requires
            old(mem).wf(),
        ensures
            final(mem).wf(),
            ok == (old(mem)@.host_base <= addr + GUEST_MEMORY_OFFSET && addr
                + GUEST_MEMORY_OFFSET + data@.len() <= old(mem)@.host_end()),
            final(mem)@ == (if ok {
                window_t {
                    bytes: place(old(mem).bytes@, old(mem)@.offset_of(addr), data@),
                    ..old(mem)@
                }
            } else {
                old(mem)@
            }),
    {
        mem.write_bytes(addr, data)
    }
}

} // verus!
