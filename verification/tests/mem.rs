use rvemu::machine::{GUEST_MEMORY_OFFSET, to_guest_addr, to_host_addr};
use rvemu::mem::guest_mem_t;
use rvemu::mmu::mmu_t;

fn window(size: usize) -> guest_mem_t {
    guest_mem_t::new(GUEST_MEMORY_OFFSET, size).unwrap()
}

#[test]
fn host_address_lies_the_offset_above() {
    assert_eq!(GUEST_MEMORY_OFFSET, 0x0888_0000_0000);
    assert_eq!(to_host_addr(0), 0x0888_0000_0000);
    assert_eq!(to_host_addr(0x1_0000), 0x0888_0001_0000);
    assert_eq!(to_guest_addr(0x0888_0001_0000), 0x1_0000);
    assert_eq!(to_guest_addr(to_host_addr(0x1234_5678)), 0x1234_5678);
    assert_eq!(to_host_addr(u64::MAX - GUEST_MEMORY_OFFSET), u64::MAX);
}

#[test]
fn new_window_is_zero_filled() {
    let mem = window(16);
    assert_eq!(mem.host_base, GUEST_MEMORY_OFFSET);
    assert_eq!(mem.bytes, vec![0u8; 16]);
    assert_eq!(mem.host_end(), GUEST_MEMORY_OFFSET + 16);
    assert!(guest_mem_t::new(u64::MAX, 1).is_none());
    assert!(guest_mem_t::new(u64::MAX, 0).is_some());
}

#[test]
fn stores_are_little_endian() {
    let mut mem = window(32);
    assert!(mem.store_u64(8, 0x1122_3344_5566_7788));
    assert_eq!(&mem.bytes[8..16], &[0x88, 0x77, 0x66, 0x55, 0x44, 0x33, 0x22, 0x11]);
    assert!(mem.store_u32(0, 0xa1b2_c3d4));
    assert_eq!(&mem.bytes[0..4], &[0xd4, 0xc3, 0xb2, 0xa1]);
    assert!(mem.store_u16(4, 0xe5f6));
    assert_eq!(&mem.bytes[4..6], &[0xf6, 0xe5]);
    assert!(mem.store_u8(6, 0x07));
    assert_eq!(mem.bytes[6], 0x07);
    assert_eq!(mem.bytes[7], 0);
    assert_eq!(&mem.bytes[16..32], &[0u8; 16]);
}

#[test]
fn loads_are_little_endian() {
    let mut mem = window(16);
    mem.bytes = (1..=16).collect();
    assert_eq!(mem.load_u8(0), Some(0x01));
    assert_eq!(mem.load_u8(15), Some(0x10));
    assert_eq!(mem.load_u16(1), Some(0x0302));
    assert_eq!(mem.load_u32(3), Some(0x0706_0504));
    assert_eq!(mem.load_u64(8), Some(0x100f_0e0d_0c0b_0a09));
    assert_eq!(mem.load_u64(5), Some(0x0d0c_0b0a_0908_0706));
    assert_eq!(mem.load(0, 1), Some(0x01));
    assert_eq!(mem.load(0, 2), Some(0x0201));
    assert_eq!(mem.load(0, 4), Some(0x0403_0201));
    assert_eq!(mem.load(0, 8), Some(0x0807_0605_0403_0201));
}

#[test]
fn load_returns_what_store_put() {
    let mut mem = window(64);
    for (addr, value) in [(0u64, 0u64), (3, u64::MAX), (17, 0x0123_4567_89ab_cdef), (56, 1)] {
        assert!(mem.store_u64(addr, value));
        assert_eq!(mem.load_u64(addr), Some(value));
        assert!(mem.store(addr, 4, value));
        assert_eq!(mem.load(addr, 4), Some(value & 0xffff_ffff));
        assert!(mem.store(addr, 2, value));
        assert_eq!(mem.load(addr, 2), Some(value & 0xffff));
        assert!(mem.store(addr, 1, value));
        assert_eq!(mem.load(addr, 1), Some(value & 0xff));
    }
}

#[test]
fn generic_store_writes_only_the_low_bytes() {
    let mut mem = window(16);
    mem.bytes = vec![0xee; 16];
    assert!(mem.store(4, 2, 0x1122_3344_5566_7788));
    assert_eq!(&mem.bytes[3..7], &[0xee, 0x88, 0x77, 0xee]);
    assert!(mem.store(8, 4, 0x1122_3344_5566_7788));
    assert_eq!(&mem.bytes[7..13], &[0xee, 0x88, 0x77, 0x66, 0x55, 0xee]);
}

#[test]
fn access_outside_the_window_is_refused() {
    let mut mem = window(16);
    mem.bytes = vec![0xee; 16];
    let before = mem.bytes.clone();
    assert_eq!(mem.load_u8(16), None);
    assert_eq!(mem.load_u16(15), None);
    assert_eq!(mem.load_u32(13), None);
    assert_eq!(mem.load_u64(9), None);
    assert_eq!(mem.load_u64(8), Some(0xeeee_eeee_eeee_eeee));
    assert_eq!(mem.load_u8(u64::MAX), None);
    assert_eq!(mem.load_u64(u64::MAX - GUEST_MEMORY_OFFSET), None);
    assert_eq!(mem.load(1 << 40, 8), None);
    assert!(!mem.store_u8(16, 1));
    assert!(!mem.store_u16(15, 1));
    assert!(!mem.store_u32(13, 1));
    assert!(!mem.store_u64(9, 1));
    assert!(!mem.store(u64::MAX, 1, 1));
    assert_eq!(mem.bytes, before);
}

#[test]
fn address_below_the_window_is_refused() {
    let mut mem = guest_mem_t::new(GUEST_MEMORY_OFFSET + 0x100, 16).unwrap();
    assert_eq!(mem.load_u8(0xff), None);
    assert_eq!(mem.load_u8(0x100), Some(0));
    assert_eq!(mem.load_u16(0xff), None);
    assert!(!mem.store_u32(0xfe, 7));
    assert!(mem.store_u32(0x10c, 7));
    assert_eq!(mem.locate(0x104, 4), Some(4));
    assert_eq!(mem.locate(0x110, 0), Some(16));
    assert_eq!(mem.locate(0x110, 1), None);
}

#[test]
fn extending_appends_zeros() {
    let mut mem = window(4);
    mem.bytes = vec![1, 2, 3, 4];
    assert!(mem.extend_to(GUEST_MEMORY_OFFSET + 8));
    assert_eq!(mem.bytes, vec![1, 2, 3, 4, 0, 0, 0, 0]);
    assert!(mem.extend_to(GUEST_MEMORY_OFFSET + 2));
    assert_eq!(mem.bytes.len(), 8);
    assert!(mem.extend_to(0));
    assert_eq!(mem.bytes.len(), 8);
}

#[test]
fn bytes_are_copied_in_and_out() {
    let mut mem = window(16);
    assert!(mem.write_bytes(3, b"hello"));
    assert_eq!(&mem.bytes[2..9], &[0, b'h', b'e', b'l', b'l', b'o', 0]);
    assert_eq!(mem.read_bytes(3, 5), Some(b"hello".to_vec()));
    assert_eq!(mem.read_bytes(0, 16), Some(mem.bytes.clone()));
    assert_eq!(mem.read_bytes(16, 0), Some(vec![]));
    assert_eq!(mem.read_bytes(12, 5), None);
    assert_eq!(mem.read_bytes(17, 0), None);
    assert!(!mem.write_bytes(12, b"hello"));
    assert!(mem.write_bytes(11, b"hello"));
    assert!(mem.write_bytes(16, b""));
    assert!(mmu_t::mmu_write(&mut mem, 0, b"ab"));
    assert_eq!(&mem.bytes[0..3], &[b'a', b'b', 0]);
    assert!(!mmu_t::mmu_write(&mut mem, 15, b"ab"));
}

#[test]
fn bytes_are_cleared() {
    let mut mem = window(8);
    mem.bytes = vec![9; 8];
    assert!(mem.clear_bytes(2, 3));
    assert_eq!(mem.bytes, vec![9, 9, 0, 0, 0, 9, 9, 9]);
    assert!(!mem.clear_bytes(6, 3));
    assert!(mem.clear_bytes(8, 0));
    assert_eq!(mem.bytes, vec![9, 9, 0, 0, 0, 9, 9, 9]);
}

#[test]
fn strings_end_at_the_first_zero() {
    let mut mem = window(8);
    mem.bytes = vec![b'a', b'b', 0, b'c', b'd', b'e', b'f', b'g'];
    assert_eq!(mem.read_cstr(0), Some(b"ab".to_vec()));
    assert_eq!(mem.read_cstr(1), Some(b"b".to_vec()));
    assert_eq!(mem.read_cstr(2), Some(vec![]));
    assert_eq!(mem.read_cstr(3), None);
    assert_eq!(mem.read_cstr(8), None);
    assert_eq!(mem.read_cstr(9), None);
}
