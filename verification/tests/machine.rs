use rvemu::elf::{EHDR_SIZE, elf64_ehdr_t, elf64_phdr_t, PHDR_SIZE, read_le16, read_le32, read_le64};
use rvemu::interp::stop_t;
use rvemu::machine::{exit_reason_t, GUEST_MEMORY_OFFSET, machine_t, STACK_SIZE};
use rvemu::mem::guest_mem_t;
use rvemu::mmu::{load_error_t, mmu_t};
use rvemu::reg::{csr_t, fp_reg_t, fp_reg_type_t, gp_reg_type_t};
use rvemu::syscall::{
    convert_flags, host_flags_t, sys_brk, sys_close_forwards, syscall_lookup, syscall_t,
};
use rvemu::utils::{round_down, round_up};

const PAGE: u64 = 4096;
const ENTRY: u64 = 0x1_0000;

struct Segment {
    kind: u32,
    vaddr: u64,
    file: Vec<u8>,
    memsz: u64,
}

fn load_segment(vaddr: u64, file: &[u8], memsz: u64) -> Segment {
    Segment { kind: 1, vaddr, file: file.to_vec(), memsz }
}

/// A 64-bit ELF file for RISC-V with these segments: the header, the
/// program headers, then what the file holds of each segment.
fn elf_image(entry: u64, segments: &[Segment]) -> Vec<u8> {
    let mut elf = vec![0u8; EHDR_SIZE];
    elf[0..4].copy_from_slice(&[0x7f, b'E', b'L', b'F']);
    elf[4] = 2;
    elf[5] = 1;
    elf[6] = 1;
    elf[16..18].copy_from_slice(&2u16.to_le_bytes());
    elf[18..20].copy_from_slice(&243u16.to_le_bytes());
    elf[20..24].copy_from_slice(&1u32.to_le_bytes());
    elf[24..32].copy_from_slice(&entry.to_le_bytes());
    elf[32..40].copy_from_slice(&(EHDR_SIZE as u64).to_le_bytes());
    elf[52..54].copy_from_slice(&(EHDR_SIZE as u16).to_le_bytes());
    elf[54..56].copy_from_slice(&(PHDR_SIZE as u16).to_le_bytes());
    elf[56..58].copy_from_slice(&(segments.len() as u16).to_le_bytes());
    let mut offset = (EHDR_SIZE + PHDR_SIZE * segments.len()) as u64;
    for segment in segments {
        elf.extend_from_slice(&segment.kind.to_le_bytes());
        elf.extend_from_slice(&5u32.to_le_bytes());
        elf.extend_from_slice(&offset.to_le_bytes());
        elf.extend_from_slice(&segment.vaddr.to_le_bytes());
        elf.extend_from_slice(&segment.vaddr.to_le_bytes());
        elf.extend_from_slice(&(segment.file.len() as u64).to_le_bytes());
        elf.extend_from_slice(&segment.memsz.to_le_bytes());
        elf.extend_from_slice(&PAGE.to_le_bytes());
        offset += segment.file.len() as u64;
    }
    for segment in segments {
        elf.extend_from_slice(&segment.file);
    }
    elf
}

fn code(words: &[u32]) -> Vec<u8> {
    words.iter().flat_map(|w| w.to_le_bytes()).collect()
}

fn machine() -> machine_t {
    let mut m = machine_t::new();
    m.page = PAGE;
    m
}

fn loaded(words: &[u32]) -> machine_t {
    let mut m = machine();
    let file = code(words);
    let elf = elf_image(ENTRY, &[load_segment(ENTRY, &file, file.len() as u64)]);
    assert_eq!(m.machine_load_program(&elf), Ok(()));
    m
}

#[test]
fn rounding_to_a_power_of_two() {
    assert_eq!(round_down(0x1234, 0x1000), 0x1000);
    assert_eq!(round_down(0x1000, 0x1000), 0x1000);
    assert_eq!(round_down(0xfff, 0x1000), 0);
    assert_eq!(round_down(0x1234, 1), 0x1234);
    assert_eq!(round_down(u64::MAX, 0x8000_0000_0000_0000), 0x8000_0000_0000_0000);
    assert_eq!(round_up(0x1234, 0x1000), 0x2000);
    assert_eq!(round_up(0x1000, 0x1000), 0x1000);
    assert_eq!(round_up(0x1001, 0x1000), 0x2000);
    assert_eq!(round_up(0, 0x1000), 0);
    assert_eq!(round_up(5, 1), 5);
    assert_eq!(round_up(u64::MAX - 0xfff, 0x1000), u64::MAX - 0xfff);
}

#[test]
fn registers_have_their_numbers() {
    assert_eq!(gp_reg_type_t::zero.index(), 0);
    assert_eq!(gp_reg_type_t::ra.index(), 1);
    assert_eq!(gp_reg_type_t::sp.index(), 2);
    assert_eq!(gp_reg_type_t::s0.index(), 8);
    assert_eq!(gp_reg_type_t::a0.index(), 10);
    assert_eq!(gp_reg_type_t::a7.index(), 17);
    assert_eq!(gp_reg_type_t::s2.index(), 18);
    assert_eq!(gp_reg_type_t::t3.index(), 28);
    assert_eq!(gp_reg_type_t::t6.index(), 31);
    assert_eq!(gp_reg_type_t::num_gp_regs.index(), 32);
    assert_eq!(fp_reg_type_t::ft0.index(), 0);
    assert_eq!(fp_reg_type_t::fs0.index(), 8);
    assert_eq!(fp_reg_type_t::fa0.index(), 10);
    assert_eq!(fp_reg_type_t::ft8.index(), 28);
    assert_eq!(fp_reg_type_t::ft11.index(), 31);
    assert_eq!(fp_reg_type_t::num_fp_regs.index(), 32);
}

#[test]
fn floating_point_register_read_wide() {
    let reg = fp_reg_t { v: 0x4009_21fb_5444_2d18 };
    assert_eq!(reg.wide(), 0x4009_21fb_5444_2d18);
    assert_eq!(f64::from_bits(reg.wide()), std::f64::consts::PI);
}

#[test]
fn floating_point_register_read_narrow() {
    let reg = fp_reg_t { v: 0xffff_ffff_4049_0fdb };
    assert_eq!(reg.narrow(), 0x4049_0fdb);
    assert_eq!(f32::from_bits(reg.narrow()), std::f32::consts::PI);
    assert_eq!(fp_reg_t { v: 0x1234_5678_0000_0000 }.narrow(), 0);
}

#[test]
fn floating_point_register_write_wide() {
    let mut reg = fp_reg_t { v: 0xffff_ffff_ffff_ffff };
    reg.set_wide(2.5f64.to_bits());
    assert_eq!(reg.v, 0x4004_0000_0000_0000);
    assert_eq!(f64::from_bits(reg.wide()), 2.5);
}

#[test]
fn floating_point_register_write_narrow() {
    let mut reg = fp_reg_t { v: 0x1122_3344_5566_7788 };
    reg.set_narrow(2.5f32.to_bits());
    assert_eq!(reg.v, 0x1122_3344_4020_0000);
    assert_eq!(f32::from_bits(reg.narrow()), 2.5);
    reg.set_boxed((-0.0f32).to_bits());
    assert_eq!(reg.v, 0xffff_ffff_8000_0000);
    assert_eq!(reg.narrow(), 0x8000_0000);
    assert!(f64::from_bits(reg.wide()).is_nan());
}

#[test]
fn three_csrs_are_known() {
    assert_eq!(csr_t::from_index(1), Some(csr_t::fflags));
    assert_eq!(csr_t::from_index(2), Some(csr_t::frm));
    assert_eq!(csr_t::from_index(3), Some(csr_t::fcsr));
    assert_eq!(csr_t::from_index(0), None);
    assert_eq!(csr_t::from_index(4), None);
    assert_eq!(csr_t::from_index(0xc00), None);
    assert_eq!(csr_t::fflags.index(), 1);
    assert_eq!(csr_t::frm.index(), 2);
    assert_eq!(csr_t::fcsr.index(), 3);
}

#[test]
fn system_calls_are_found_by_number() {
    let table = [
        (93u64, Some(syscall_t::exit)),
        (94, Some(syscall_t::exit)),
        (63, Some(syscall_t::read)),
        (64, Some(syscall_t::write)),
        (56, Some(syscall_t::openat)),
        (57, Some(syscall_t::close)),
        (80, Some(syscall_t::fstat)),
        (62, Some(syscall_t::lseek)),
        (214, Some(syscall_t::brk)),
        (169, Some(syscall_t::gettimeofday)),
        (1024, Some(syscall_t::open)),
        (67, Some(syscall_t::unimplemented)),
        (172, Some(syscall_t::unimplemented)),
        (291, Some(syscall_t::unimplemented)),
        (49, Some(syscall_t::unimplemented)),
        (1025, Some(syscall_t::unimplemented)),
        (1026, Some(syscall_t::unimplemented)),
        (1030, Some(syscall_t::unimplemented)),
        (1033, Some(syscall_t::unimplemented)),
        (1038, Some(syscall_t::unimplemented)),
        (1039, Some(syscall_t::unimplemented)),
        (1062, Some(syscall_t::unimplemented)),
        (0, None),
        (1, None),
        (95, None),
        (261, None),
        (290, None),
        (292, None),
        (1023, None),
        (1027, None),
        (1063, None),
        (2011, None),
        (u64::MAX, None),
        ((1 << 32) + 93, Some(syscall_t::exit)),
        ((7 << 32) + 1024, Some(syscall_t::open)),
    ];
    let m = machine();
    for (num, expected) in table {
        assert_eq!(syscall_lookup(num), expected, "{}", num);
        assert_eq!(m.do_syscall(num), expected, "{}", num);
    }
}

#[test]
fn open_flags_are_converted() {
    let host = host_flags_t {
        rdonly: 0,
        wronly: 0x1,
        rdwr: 0x2,
        append: 0x400,
        creat: 0x40,
        trunc: 0x200,
        excl: 0x80,
    };
    assert_eq!(convert_flags(0, &host), 0);
    assert_eq!(convert_flags(0x1, &host), 0x1);
    assert_eq!(convert_flags(0x2, &host), 0x2);
    assert_eq!(convert_flags(0x8, &host), 0x400);
    assert_eq!(convert_flags(0x200, &host), 0x40);
    assert_eq!(convert_flags(0x400, &host), 0x200);
    assert_eq!(convert_flags(0x800, &host), 0x80);
    assert_eq!(convert_flags(0x601, &host), 0x241);
    assert_eq!(convert_flags(0xa0a, &host), 0x4c2);
    assert_eq!(convert_flags(0x4, &host), 0);
    assert_eq!(convert_flags(-1, &host), 0x6c3);
    let odd = host_flags_t { rdonly: 0x10_0000, ..host };
    assert_eq!(convert_flags(0, &odd), 0);
    assert_eq!(convert_flags(0x1, &odd), 0x1);
}

#[test]
fn standard_streams_stay_open() {
    assert!(!sys_close_forwards(0));
    assert!(!sys_close_forwards(1));
    assert!(!sys_close_forwards(2));
    assert!(sys_close_forwards(3));
    assert!(sys_close_forwards(u64::MAX));
}

#[test]
fn little_endian_numbers_are_read_from_bytes() {
    let bytes: Vec<u8> = (1..=12).collect();
    assert_eq!(read_le16(&bytes, 0), 0x0201);
    assert_eq!(read_le16(&bytes, 10), 0x0c0b);
    assert_eq!(read_le32(&bytes, 1), 0x0504_0302);
    assert_eq!(read_le64(&bytes, 4), 0x0c0b_0a09_0807_0605);
}

#[test]
fn file_header_is_parsed() {
    let elf = elf_image(0x1_0078, &[load_segment(ENTRY, b"abc", 3), load_segment(0x2_0000, b"", 8)]);
    let ehdr = elf64_ehdr_t::parse(&elf).unwrap();
    assert_eq!(&ehdr.e_ident[0..7], &[0x7f, b'E', b'L', b'F', 2, 1, 1]);
    assert_eq!(ehdr.e_type, 2);
    assert_eq!(ehdr.e_machine, 243);
    assert_eq!(ehdr.e_version, 1);
    assert_eq!(ehdr.e_entry, 0x1_0078);
    assert_eq!(ehdr.e_phoff, 64);
    assert_eq!(ehdr.e_shoff, 0);
    assert_eq!(ehdr.e_flags, 0);
    assert_eq!(ehdr.e_ehsize, 64);
    assert_eq!(ehdr.e_phentsize, 56);
    assert_eq!(ehdr.e_phnum, 2);
    assert_eq!((ehdr.e_shentsize, ehdr.e_shnum, ehdr.e_shstrndx), (0, 0, 0));
    assert_eq!(elf64_ehdr_t::parse(&elf[0..64]), Some(ehdr));
    assert_eq!(elf64_ehdr_t::parse(&elf[0..63]), None);
    assert_eq!(elf64_ehdr_t::parse(&[]), None);
}

#[test]
fn program_headers_are_read_by_number() {
    let elf = elf_image(ENTRY, &[load_segment(ENTRY, b"abc", 7), load_segment(0x2_0000, b"", 8)]);
    let ehdr = elf64_ehdr_t::parse(&elf).unwrap();
    let blank = elf64_phdr_t {
        p_type: 9,
        p_flags: 9,
        p_offset: 9,
        p_vaddr: 9,
        p_paddr: 9,
        p_filesz: 9,
        p_memsz: 9,
        p_align: 9,
    };
    let mut phdr = blank;
    assert!(phdr.load_phdr(&ehdr, 0, &elf));
    assert_eq!(
        phdr,
        elf64_phdr_t {
            p_type: 1,
            p_flags: 5,
            p_offset: 176,
            p_vaddr: ENTRY,
            p_paddr: ENTRY,
            p_filesz: 3,
            p_memsz: 7,
            p_align: PAGE,
        }
    );
    assert!(phdr.load_phdr(&ehdr, 1, &elf));
    assert_eq!((phdr.p_offset, phdr.p_vaddr, phdr.p_filesz, phdr.p_memsz), (179, 0x2_0000, 0, 8));
    let mut phdr = blank;
    assert!(!phdr.load_phdr(&ehdr, -1, &elf));
    assert!(!phdr.load_phdr(&ehdr, 3, &elf));
    assert!(!phdr.load_phdr(&ehdr, i64::MAX, &elf));
    assert!(!phdr.load_phdr(&ehdr, 1, &elf[0..175]));
    assert_eq!(phdr, blank);
    assert!(phdr.load_phdr(&ehdr, 1, &elf[0..176]));
}

#[test]
fn new_machine_is_blank() {
    let m = machine_t::new();
    assert_eq!(m.mmu, mmu_t { entry: 0, host_alloc: 0, alloc: 0, base: 0 });
    assert_eq!(m.mmu, mmu_t::new());
    assert_eq!(m.mmu.get_entry(), 0);
    assert_eq!(m.mem.host_base, GUEST_MEMORY_OFFSET);
    assert!(m.mem.bytes.is_empty());
    assert_eq!(m.state.gp_regs, [0; 32]);
    assert_eq!(m.state.fp_regs, [fp_reg_t { v: 0 }; 32]);
    assert_eq!(m.state.pc, 0);
    assert_eq!(m.state.reenter_pc, 0);
    assert_eq!(m.state.exit_reason, exit_reason_t::none);
    assert!(m.page.is_power_of_two());
}

#[test]
fn program_is_loaded_at_its_address() {
    let elf = elf_image(
        0x1_0004,
        &[
            load_segment(0x1_0010, b"ABCDEFGH", 16),
            Segment { kind: 4, vaddr: 0x5_0000, file: b"note".to_vec(), memsz: 4 },
            load_segment(0x1_2ff0, b"xyz", 0x20),
        ],
    );
    let mut m = machine();
    assert_eq!(m.machine_load_program(&elf), Ok(()));
    assert_eq!(m.mmu.get_entry(), 0x1_0004);
    assert_eq!(m.state.pc, 0x1_0004);
    assert_eq!(m.mmu.host_alloc, GUEST_MEMORY_OFFSET + 0x1_4000);
    assert_eq!(m.mmu.alloc, 0x1_4000);
    assert_eq!(m.mmu.base, 0x1_4000);
    assert_eq!(m.mem.host_base, GUEST_MEMORY_OFFSET);
    assert_eq!(m.mem.bytes.len(), 0x1_4000);
    assert_eq!(m.mem.read_bytes(0x1_0010, 8), Some(b"ABCDEFGH".to_vec()));
    assert_eq!(m.mem.read_bytes(0x1_2ff0, 3), Some(b"xyz".to_vec()));
    let mut expected = vec![0u8; 0x1_4000];
    expected[0x1_0010..0x1_0018].copy_from_slice(b"ABCDEFGH");
    expected[0x1_2ff0..0x1_2ff3].copy_from_slice(b"xyz");
    assert_eq!(m.mem.bytes, expected);
}

#[test]
fn later_segment_overwrites_and_clears() {
    let elf = elf_image(
        ENTRY,
        &[load_segment(ENTRY, &[0xaa; 32], 32), load_segment(ENTRY + 8, &[0xbb; 4], 12)],
    );
    let mut m = machine();
    assert_eq!(m.machine_load_program(&elf), Ok(()));
    let mut expected = vec![0xaau8; 32];
    expected[8..12].copy_from_slice(&[0xbb; 4]);
    expected[12..20].copy_from_slice(&[0; 8]);
    assert_eq!(m.mem.read_bytes(ENTRY, 32), Some(expected));
    assert_eq!(m.mmu.alloc, 0x1_1000);
}

#[test]
fn files_that_are_no_programs_are_refused() {
    let good = elf_image(ENTRY, &[load_segment(ENTRY, b"abcd", 4)]);
    let mut cases: Vec<(Vec<u8>, load_error_t)> = vec![
        (vec![], load_error_t::too_short),
        (vec![0x7f, b'E', b'L'], load_error_t::too_short),
        (b"\x7fELG".to_vec(), load_error_t::not_elf),
        (b"#!/bin/sh\n".to_vec(), load_error_t::not_elf),
        (good[0..63].to_vec(), load_error_t::truncated),
        (good[0..4].to_vec(), load_error_t::truncated),
    ];
    let mut other_machine = good.clone();
    other_machine[18] = 62;
    cases.push((other_machine, load_error_t::not_riscv64));
    let mut narrow = good.clone();
    narrow[4] = 1;
    cases.push((narrow, load_error_t::not_riscv64));
    cases.push((good[0..119].to_vec(), load_error_t::bad_phdr));
    cases.push((good[0..123].to_vec(), load_error_t::bad_segment));
    let mut larger_in_file = good.clone();
    larger_in_file[64 + 40] = 3;
    cases.push((larger_in_file, load_error_t::bad_segment));
    let mut far = good.clone();
    far[64 + 16..64 + 24].copy_from_slice(&u64::MAX.to_le_bytes());
    cases.push((far, load_error_t::bad_segment));
    for (elf, error) in cases {
        let mut m = machine();
        assert_eq!(m.machine_load_program(&elf), Err(error), "{:?}", error);
        assert!(m.mem.bytes.is_empty());
        assert_eq!(m.mmu.alloc, 0);
    }
    let mut m = machine();
    assert_eq!(m.machine_load_program(&good), Ok(()));
}

#[test]
fn load_stops_at_the_first_bad_segment() {
    let mut elf = elf_image(
        ENTRY,
        &[load_segment(ENTRY, b"abcd", 4), load_segment(0x2_0000, b"efgh", 4)],
    );
    let len = elf.len();
    elf.truncate(len - 1);
    let mut m = machine();
    assert_eq!(m.machine_load_program(&elf), Err(load_error_t::bad_segment));
    assert_eq!(m.mmu.get_entry(), ENTRY);
    assert_eq!(m.state.pc, ENTRY);
    assert_eq!(m.mmu.alloc, 0x1_1000);
    assert_eq!(m.mem.read_bytes(ENTRY, 4), Some(b"abcd".to_vec()));
    assert_eq!(m.mem.bytes.len(), 0x1_1000);
}

#[test]
fn page_size_must_be_a_power_of_two() {
    let elf = elf_image(ENTRY, &[load_segment(ENTRY, b"abcd", 4)]);
    for page in [0u64, 3, 4097, 6] {
        let mut mmu = mmu_t::new();
        let mut mem = guest_mem_t::new(GUEST_MEMORY_OFFSET, 0).unwrap();
        assert_eq!(mmu.mmu_load_elf_with(&mut mem, &elf, page), Err(load_error_t::bad_segment));
        let mut mmu = mmu_t { entry: 0, host_alloc: GUEST_MEMORY_OFFSET, alloc: 0, base: 0 };
        assert_eq!(mmu.mmu_alloc_with(&mut mem, 16, page), None);
    }
    let mut mmu = mmu_t::new();
    let mut mem = guest_mem_t::new(GUEST_MEMORY_OFFSET, 0).unwrap();
    assert_eq!(mmu.mmu_load_elf_with(&mut mem, &elf, 0x1_0000), Ok(()));
    assert_eq!(mmu.alloc, 0x2_0000);
    let mut mmu = mmu_t::new();
    let mut mem = guest_mem_t::new(GUEST_MEMORY_OFFSET, 0).unwrap();
    assert_eq!(mmu.mmu_load_elf(&mut mem, &elf), Ok(()));
    assert_eq!(mem.read_bytes(ENTRY, 4), Some(b"abcd".to_vec()));
}

#[test]
fn allocator_hands_out_what_follows() {
    let mut m = loaded(&[0x73]);
    assert_eq!(m.mmu.alloc, 0x1_1000);
    assert_eq!(m.mmu.mmu_alloc_with(&mut m.mem, 0, PAGE), Some(0x1_1000));
    assert_eq!(m.mem.bytes.len(), 0x1_1000);
    assert_eq!(m.mmu.mmu_alloc_with(&mut m.mem, 1, PAGE), Some(0x1_1000));
    assert_eq!(m.mmu.alloc, 0x1_1001);
    assert_eq!(m.mmu.host_alloc, GUEST_MEMORY_OFFSET + 0x1_2000);
    assert_eq!(m.mem.bytes.len(), 0x1_2000);
    assert_eq!(m.mmu.mmu_alloc_with(&mut m.mem, 0xfff, PAGE), Some(0x1_1001));
    assert_eq!(m.mmu.alloc, 0x1_2000);
    assert_eq!(m.mem.bytes.len(), 0x1_2000);
    assert_eq!(m.mmu.mmu_alloc_with(&mut m.mem, 0x1001, PAGE), Some(0x1_2000));
    assert_eq!(m.mmu.alloc, 0x1_3001);
    assert_eq!(m.mmu.host_alloc, GUEST_MEMORY_OFFSET + 0x1_4000);
    assert_eq!(m.mem.bytes.len(), 0x1_4000);
    assert_eq!(m.mmu.base, 0x1_1000);
    assert_eq!(m.mmu.mmu_alloc(&mut m.mem, 8), Some(0x1_3001));
    assert_eq!(m.mmu.alloc, 0x1_3009);
    assert!(m.mem.store_u64(0x1_3001, 7));
}

#[test]
fn allocator_needs_no_page_size_within_what_is_set_aside() {
    let mut m = loaded(&[0x73]);
    assert_eq!(m.mmu.mmu_alloc_with(&mut m.mem, 1, PAGE), Some(0x1_1000));
    let mem = m.mem.clone();
    for page in [0u64, 3, 4097, PAGE] {
        let before = m.mmu;
        assert_eq!(m.mmu.mmu_alloc_with(&mut m.mem, 0, page), Some(before.alloc));
        assert_eq!(m.mmu, before);
        assert_eq!(m.mmu.mmu_alloc_with(&mut m.mem, 0x100, page), Some(before.alloc));
        assert_eq!(m.mmu, mmu_t { alloc: before.alloc + 0x100, ..before });
        assert_eq!(m.mem, mem);
    }
    assert_eq!(m.mmu.alloc, 0x1_1401);
    let before = m.mmu;
    assert_eq!(m.mmu.mmu_alloc(&mut m.mem, 0xbff), Some(0x1_1401));
    assert_eq!(m.mmu, mmu_t { alloc: 0x1_2000, ..before });
    assert_eq!(m.mem, mem);
    assert_eq!(m.mmu.mmu_alloc(&mut m.mem, 0), Some(0x1_2000));
    assert_eq!(m.mmu.mmu_alloc_with(&mut m.mem, 1, 3), None);
    assert_eq!(m.mmu, mmu_t { alloc: 0x1_2000, ..before });
    let mut blank = machine();
    assert_eq!(blank.mmu.mmu_alloc(&mut blank.mem, 0), Some(0));
    assert_eq!(blank.mmu, mmu_t::new());
    assert!(blank.mem.bytes.is_empty());
}

#[test]
fn allocator_refuses_what_it_cannot_hand_out() {
    let mut m = loaded(&[0x73]);
    let mmu = m.mmu;
    let mem = m.mem.clone();
    assert_eq!(m.mmu.mmu_alloc_with(&mut m.mem, -1, PAGE), None);
    assert_eq!(m.mmu.mmu_alloc_with(&mut m.mem, i64::MIN, PAGE), None);
    assert_eq!(m.mmu.mmu_alloc(&mut m.mem, -8), None);
    assert_eq!(m.mmu.mmu_alloc_with(&mut m.mem, i64::MAX, PAGE), None);
    assert_eq!(m.mmu, mmu);
    assert_eq!(m.mem, mem);
    m.mmu.alloc = m.mmu.base - 1;
    assert_eq!(m.mmu.mmu_alloc_with(&mut m.mem, 8, PAGE), None);
    let mut blank = machine();
    assert_eq!(blank.mmu.mmu_alloc_with(&mut blank.mem, 8, PAGE), None);
}

#[test]
fn stack_is_laid_out_for_the_program() {
    let mut m = loaded(&[0x73]);
    let argv: Vec<Vec<u8>> = vec![b"emulator".to_vec(), b"prog".to_vec(), b"arg1".to_vec()];
    assert!(m.machine_setup(&argv));
    let stack = 0x1_1000u64;
    let top = stack + STACK_SIZE;
    let sp = top - 24 - 8 * 3;
    assert_eq!(STACK_SIZE, 32 * 1024 * 1024);
    assert_eq!(m.state.gp_regs[2], sp);
    assert_eq!(m.mem.load_u64(sp), Some(2));
    assert_eq!(m.mem.load_u64(sp + 8), Some(top + 5));
    assert_eq!(m.mem.load_u64(sp + 16), Some(top));
    assert_eq!(m.mem.load_u64(sp + 24), Some(0));
    assert_eq!(m.mem.load_u64(sp + 32), Some(0));
    assert_eq!(m.mem.load_u64(sp + 40), Some(0));
    assert_eq!(m.mem.read_cstr(top + 5), Some(b"prog".to_vec()));
    assert_eq!(m.mem.read_cstr(top), Some(b"arg1".to_vec()));
    assert_eq!(m.mmu.alloc, top + 10);
    assert_eq!(m.mmu.base, stack);
    assert_eq!(m.mmu.host_alloc, GUEST_MEMORY_OFFSET + top + PAGE);
    assert_eq!(m.mem.bytes.len() as u64, top + PAGE);
    assert_eq!(m.state.pc, ENTRY);
    for i in (0..32).filter(|i| *i != 2) {
        assert_eq!(m.state.gp_regs[i], 0);
    }
}

#[test]
fn stack_without_arguments() {
    let mut m = loaded(&[0x73]);
    assert!(m.machine_setup(&vec![b"emulator".to_vec()]));
    let sp = 0x1_1000 + STACK_SIZE - 32;
    assert_eq!(m.state.gp_regs[2], sp);
    assert_eq!(m.mem.load_u64(sp), Some(0));
    assert_eq!(m.mem.load_u64(sp + 8), Some(0));
    assert_eq!(m.mmu.alloc, 0x1_1000 + STACK_SIZE);
    let mut m = loaded(&[0x73]);
    assert!(!m.machine_setup(&vec![]));
    let mut blank = machine();
    assert!(!blank.machine_setup(&vec![b"emulator".to_vec()]));
}

#[test]
fn registers_are_read_and_written_by_name() {
    let mut m = machine();
    m.machine_set_gp_reg(gp_reg_type_t::a0, 7);
    m.machine_set_gp_reg(gp_reg_type_t::t6, 9);
    assert_eq!(m.state.gp_regs[10], 7);
    assert_eq!(m.state.gp_regs[31], 9);
    assert_eq!(m.machine_get_gp_reg(gp_reg_type_t::a0), 7);
    assert_eq!(m.machine_get_gp_reg(gp_reg_type_t::t6), 9);
    assert_eq!(m.machine_get_gp_reg(gp_reg_type_t::sp), 0);
}

#[test]
fn machine_runs_to_the_environment_call() {
    let mut m = loaded(&[
        0x05d0_0893, // addi a7, zero, 93
        0x0080_006f, // jal zero, +8
        0x0000_0013, // nop, jumped over
        0x02a0_0513, // addi a0, zero, 42
        0x0000_0073, // ecall
        0x0010_0513, // addi a0, zero, 1
        0x0000_0073, // ecall
    ]);
    assert_eq!(m.machine_step(100), Ok(exit_reason_t::ecall));
    assert_eq!(m.state.pc, ENTRY + 20);
    assert_eq!(m.state.reenter_pc, ENTRY + 20);
    assert_eq!(m.machine_get_gp_reg(gp_reg_type_t::a7), 93);
    assert_eq!(m.machine_get_gp_reg(gp_reg_type_t::a0), 42);
    assert_eq!(m.do_syscall(m.machine_get_gp_reg(gp_reg_type_t::a7)), Some(syscall_t::exit));
    m.machine_set_gp_reg(gp_reg_type_t::a0, 0);
    assert_eq!(m.machine_step(100), Ok(exit_reason_t::ecall));
    assert_eq!(m.state.pc, ENTRY + 28);
    assert_eq!(m.machine_get_gp_reg(gp_reg_type_t::a0), 1);
}

#[test]
fn machine_stops_when_its_blocks_are_used_up() {
    let mut m = loaded(&[
        0x0012_8293, // addi t0, t0, 1
        0xffdf_f06f, // jal zero, -4
    ]);
    assert_eq!(m.machine_step(5), Ok(exit_reason_t::direct_branch));
    assert_eq!(m.state.gp_regs[5], 5);
    assert_eq!(m.state.pc, ENTRY);
    assert_eq!(m.machine_step(1), Ok(exit_reason_t::direct_branch));
    assert_eq!(m.state.gp_regs[5], 6);
    let before = m.state.clone();
    assert_eq!(m.machine_step(0), Ok(exit_reason_t::direct_branch));
    assert_eq!(m.state, before);
}

#[test]
fn machine_reports_what_it_cannot_execute() {
    let mut m = machine();
    assert_eq!(m.machine_step(3), Err(stop_t::memory_fault(0)));
    let mut m = loaded(&[0x0012_8293, 0xffff_ffff]);
    assert_eq!(m.machine_step(3), Err(stop_t::decode_error(0xffff_ffff)));
    assert_eq!(m.state.pc, ENTRY + 4);
    assert_eq!(m.state.gp_regs[5], 1);
    assert_eq!(m.state.exit_reason, exit_reason_t::none);
}

#[test]
fn break_moves_with_the_request() {
    let mut m = loaded(&[0x73]);
    assert_eq!(sys_brk(&mut m), Some(0x1_1000));
    assert_eq!(m.mmu.alloc, 0x1_1000);
    assert_eq!(m.mem.bytes.len(), 0x1_1000);
    m.machine_set_gp_reg(gp_reg_type_t::a0, 0x1_1100);
    assert_eq!(sys_brk(&mut m), Some(0x1_1100));
    assert_eq!(m.mmu.alloc, 0x1_1100);
    assert_eq!(m.mmu.host_alloc, GUEST_MEMORY_OFFSET + 0x1_2000);
    assert_eq!(m.mem.bytes.len(), 0x1_2000);
    m.machine_set_gp_reg(gp_reg_type_t::a0, 0);
    assert_eq!(sys_brk(&mut m), Some(0x1_1100));
    let mmu = m.mmu;
    m.machine_set_gp_reg(gp_reg_type_t::a0, 0x1_10ff);
    assert_eq!(sys_brk(&mut m), None);
    m.machine_set_gp_reg(gp_reg_type_t::a0, 0x1_0fff);
    assert_eq!(sys_brk(&mut m), None);
    m.machine_set_gp_reg(gp_reg_type_t::a0, u64::MAX);
    assert_eq!(sys_brk(&mut m), None);
    assert_eq!(m.mmu, mmu);
    assert_eq!(m.state.gp_regs[10], u64::MAX);
}
