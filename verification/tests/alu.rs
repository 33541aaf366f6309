use rvemu::alu::{
    advance_addr, exec_alu, extend_imm, extend_word, from_signed, func_add, func_addw, func_and,
    func_div, func_divu, func_divuw, func_divw, func_mul, func_mulh, func_mulhsu, func_mulhu,
    func_mulw, func_or, func_rem, func_remu, func_remuw, func_remw, func_sll, func_sllw, func_slt,
    func_sltu, func_sra, func_sraw, func_srl, func_srlw, func_sub, func_subw, func_xor, low_word,
    offset_addr, signed_word, to_signed,
};
use rvemu::insn::insn_type_t;

type T = insn_type_t;

const MIN64: u64 = 0x8000_0000_0000_0000;
const SAMPLES: [u64; 8] = [
    0,
    1,
    42,
    0x7fff_ffff_ffff_ffff,
    MIN64,
    u64::MAX,
    0xdead_beef_0000_0001,
    0x0000_0000_8000_0000,
];

fn r(x: i64) -> u64 {
    x as u64
}

#[test]
fn division_of_most_negative_by_minus_one() {
    assert_eq!(to_signed(MIN64), -9223372036854775808);
    assert_eq!(to_signed(u64::MAX), -1);
    assert_eq!(func_div(MIN64, u64::MAX), MIN64);
    assert_eq!(to_signed(func_div(MIN64, u64::MAX)), -9223372036854775808);
    assert_eq!(func_rem(MIN64, u64::MAX), 0);
}

#[test]
fn division_by_zero_for_any_dividend() {
    for x in SAMPLES {
        assert_eq!(func_divu(x, 0), u64::MAX);
        assert_eq!(func_div(x, 0), u64::MAX);
        assert_eq!(to_signed(func_div(x, 0)), -1);
        assert_eq!(func_rem(x, 0), x);
        assert_eq!(func_remu(x, 0), x);
    }
}

#[test]
fn word_division_edge_cases() {
    for x in SAMPLES {
        assert_eq!(func_divw(x, 0), u64::MAX);
        assert_eq!(func_divuw(x, 0), u64::MAX);
        assert_eq!(func_remw(x, 0), r(x as u32 as i32 as i64));
        assert_eq!(func_remuw(x, 0), r(x as u32 as i32 as i64));
        assert_eq!(func_divw(x, 0xffff_ffff_0000_0000), u64::MAX);
    }
    assert_eq!(func_divw(0x8000_0000, 0xffff_ffff), 0xffff_ffff_8000_0000);
    assert_eq!(func_remw(0x8000_0000, 0xffff_ffff), 0);
    assert_eq!(func_divw(0x1234_5678_8000_0000, 0x9abc_def0_ffff_ffff), 0xffff_ffff_8000_0000);
}

#[test]
fn signed_division_rounds_toward_zero() {
    let table: [(i64, i64, u64, u64); 7] = [
        (-7, 2, 0xffff_ffff_ffff_fffd, 0xffff_ffff_ffff_ffff),
        (7, -2, 0xffff_ffff_ffff_fffd, 0x1),
        (-7, -2, 0x3, 0xffff_ffff_ffff_ffff),
        (7, 2, 0x3, 0x1),
        (i64::MIN, 2, 0xc000_0000_0000_0000, 0x0),
        (i64::MAX, -1, 0x8000_0000_0000_0001, 0x0),
        (-1, i64::MAX, 0x0, 0xffff_ffff_ffff_ffff),
    ];
    for (x, y, quotient, remainder) in table {
        assert_eq!(func_div(r(x), r(y)), quotient, "{} / {}", x, y);
        assert_eq!(func_rem(r(x), r(y)), remainder, "{} % {}", x, y);
    }
    assert_eq!(func_divw(r(-7), 2), r(-3));
    assert_eq!(func_remw(r(-7), 2), r(-1));
    assert_eq!(func_divw(7, r(-2)), r(-3));
    assert_eq!(func_remw(7, r(-2)), 1);
}

#[test]
fn unsigned_division() {
    assert_eq!(func_divu(u64::MAX, 2), 0x7fff_ffff_ffff_ffff);
    assert_eq!(func_remu(u64::MAX, 2), 1);
    assert_eq!(func_divu(100, 7), 14);
    assert_eq!(func_remu(100, 7), 2);
    assert_eq!(func_divuw(0x1_0000_0064, 7), 14);
    assert_eq!(func_remuw(0x1_0000_0064, 7), 2);
    assert_eq!(func_divuw(0xffff_ffff, 1), u64::MAX);
    assert_eq!(func_remuw(0xffff_ffff, 0x1_0000_0000), u64::MAX);
}

#[test]
fn high_halves_of_products() {
    let table: [(u64, u64, u64, u64, u64); 6] = [
        (0xffffffffffffffff, 0xffffffffffffffff, 0x0, 0xffffffffffffffff, 0xfffffffffffffffe),
        (0x8000000000000000, 0x8000000000000000, 0x4000000000000000, 0xc000000000000000, 0x4000000000000000),
        (0x8000000000000000, 0x2, 0xffffffffffffffff, 0xffffffffffffffff, 0x1),
        (0x123456789abcdef0, 0xfedcba9876543210, 0xffeb49923cc09532, 0x121fa00ad77d7422, 0x121fa00ad77d7422),
        (0x3, 0xffffffffffffffff, 0xffffffffffffffff, 0x2, 0x2),
        (0xffffffffffffffff, 0x3, 0xffffffffffffffff, 0xffffffffffffffff, 0x2),
    ];
    for (a, b, signed, mixed, unsigned) in table {
        assert_eq!(func_mulh(a, b), signed, "mulh {:#x} {:#x}", a, b);
        assert_eq!(func_mulhsu(a, b), mixed, "mulhsu {:#x} {:#x}", a, b);
        assert_eq!(func_mulhu(a, b), unsigned, "mulhu {:#x} {:#x}", a, b);
    }
}

#[test]
fn arithmetic_wraps() {
    assert_eq!(func_add(u64::MAX, 1), 0);
    assert_eq!(func_add(MIN64, MIN64), 0);
    assert_eq!(func_sub(0, 1), u64::MAX);
    assert_eq!(func_mul(MIN64, 2), 0);
    assert_eq!(func_mul(u64::MAX, u64::MAX), 1);
    assert_eq!(func_mul(6, 7), 42);
}

#[test]
fn word_arithmetic_sign_extends() {
    assert_eq!(func_addw(0x7fff_ffff, 1), 0xffff_ffff_8000_0000);
    assert_eq!(func_addw(0xffff_ffff, 1), 0);
    assert_eq!(func_addw(0x1234_5678_0000_0001, 0x9abc_def0_0000_0002), 3);
    assert_eq!(func_subw(0, 1), u64::MAX);
    assert_eq!(func_subw(0x8000_0000, 1), 0x7fff_ffff);
    assert_eq!(func_mulw(0x1_0000, 0x1_0000), 0);
    assert_eq!(func_mulw(0xffff_ffff, 0xffff_ffff), 1);
    assert_eq!(func_mulw(0x8000, 0x1_0000), 0xffff_ffff_8000_0000);
}

#[test]
fn shifts_mask_their_amount() {
    assert_eq!(func_sll(1, 63), MIN64);
    assert_eq!(func_sll(1, 64), 1);
    assert_eq!(func_sll(1, 65), 2);
    assert_eq!(func_sll(u64::MAX, 4), 0xffff_ffff_ffff_fff0);
    assert_eq!(func_srl(MIN64, 63), 1);
    assert_eq!(func_srl(MIN64, 127), 1);
    assert_eq!(func_srl(u64::MAX, 64), u64::MAX);
    assert_eq!(func_sra(r(-8), 1), r(-4));
    assert_eq!(func_sra(MIN64, 63), u64::MAX);
    assert_eq!(func_sra(MIN64, 64), MIN64);
    assert_eq!(func_sra(0x4000_0000_0000_0000, 62), 1);
}

#[test]
fn word_shifts_mask_to_five_bits_and_sign_extend() {
    assert_eq!(func_sllw(0x4000_0000, 1), 0xffff_ffff_8000_0000);
    assert_eq!(func_sllw(1, 32), 1);
    assert_eq!(func_sllw(1, 33), 2);
    assert_eq!(func_sllw(0xffff_ffff_0000_0001, 4), 16);
    assert_eq!(func_srlw(0xffff_ffff_8000_0000, 31), 1);
    assert_eq!(func_srlw(0x8000_0000, 0), 0xffff_ffff_8000_0000);
    assert_eq!(func_srlw(0x8000_0000, 32), 0xffff_ffff_8000_0000);
    assert_eq!(func_sraw(0x8000_0000, 4), 0xffff_ffff_f800_0000);
    assert_eq!(func_sraw(0x4000_0000, 4), 0x0400_0000);
    assert_eq!(func_sraw(0x1_8000_0000, 31), u64::MAX);
}

#[test]
fn comparisons_and_bit_operations() {
    assert_eq!(func_slt(u64::MAX, 0), 1);
    assert_eq!(func_slt(0, u64::MAX), 0);
    assert_eq!(func_slt(MIN64, 0x7fff_ffff_ffff_ffff), 1);
    assert_eq!(func_slt(5, 5), 0);
    assert_eq!(func_sltu(u64::MAX, 0), 0);
    assert_eq!(func_sltu(0, u64::MAX), 1);
    assert_eq!(func_sltu(5, 5), 0);
    assert_eq!(func_xor(0xff00, 0x0ff0), 0xf0f0);
    assert_eq!(func_or(0xff00, 0x0ff0), 0xfff0);
    assert_eq!(func_and(0xff00, 0x0ff0), 0x0f00);
}

#[test]
fn dispatch_by_instruction() {
    assert_eq!(exec_alu(T::insn_add, 5, 7), 12);
    assert_eq!(exec_alu(T::insn_addi, 5, extend_imm(-7)), r(-2));
    assert_eq!(exec_alu(T::insn_sub, 5, 7), r(-2));
    assert_eq!(exec_alu(T::insn_slti, r(-3), extend_imm(-2)), 1);
    assert_eq!(exec_alu(T::insn_sltiu, 3, extend_imm(-1)), 1);
    assert_eq!(exec_alu(T::insn_xori, 0xff, extend_imm(-1)), r(-256));
    assert_eq!(exec_alu(T::insn_ori, 0xf0, extend_imm(0x0f)), 0xff);
    assert_eq!(exec_alu(T::insn_andi, 0xff, extend_imm(-16)), 0xf0);
    assert_eq!(exec_alu(T::insn_slli, 1, extend_imm(-32)), 1 << 32);
    assert_eq!(exec_alu(T::insn_srli, MIN64, extend_imm(63)), 1);
    assert_eq!(exec_alu(T::insn_srai, r(-256), extend_imm(0x404)), r(-16));
    assert_eq!(exec_alu(T::insn_addiw, 0x7fff_ffff, extend_imm(1)), 0xffff_ffff_8000_0000);
    assert_eq!(exec_alu(T::insn_slliw, 1, extend_imm(31)), 0xffff_ffff_8000_0000);
    assert_eq!(exec_alu(T::insn_srliw, 0x8000_0000, extend_imm(31)), 1);
    assert_eq!(exec_alu(T::insn_sraiw, 0x8000_0000, extend_imm(0x41f)), u64::MAX);
    assert_eq!(exec_alu(T::insn_lui, 99, extend_imm(-4096)), r(-4096));
    assert_eq!(exec_alu(T::insn_mul, 6, 7), 42);
    assert_eq!(exec_alu(T::insn_mulh, u64::MAX, u64::MAX), 0);
    assert_eq!(exec_alu(T::insn_mulhsu, u64::MAX, u64::MAX), u64::MAX);
    assert_eq!(exec_alu(T::insn_mulhu, u64::MAX, u64::MAX), u64::MAX - 1);
    assert_eq!(exec_alu(T::insn_div, r(-7), 2), r(-3));
    assert_eq!(exec_alu(T::insn_divu, 7, 2), 3);
    assert_eq!(exec_alu(T::insn_rem, r(-7), 2), r(-1));
    assert_eq!(exec_alu(T::insn_remu, 7, 2), 1);
    assert_eq!(exec_alu(T::insn_sll, 1, 4), 16);
    assert_eq!(exec_alu(T::insn_srl, 16, 4), 1);
    assert_eq!(exec_alu(T::insn_sra, r(-16), 4), r(-1));
    assert_eq!(exec_alu(T::insn_slt, 1, 2), 1);
    assert_eq!(exec_alu(T::insn_sltu, 2, 1), 0);
    assert_eq!(exec_alu(T::insn_xor, 6, 3), 5);
    assert_eq!(exec_alu(T::insn_or, 6, 3), 7);
    assert_eq!(exec_alu(T::insn_and, 6, 3), 2);
    assert_eq!(exec_alu(T::insn_addw, 0xffff_ffff, 2), 1);
    assert_eq!(exec_alu(T::insn_subw, 1, 2), u64::MAX);
    assert_eq!(exec_alu(T::insn_sllw, 1, 31), 0xffff_ffff_8000_0000);
    assert_eq!(exec_alu(T::insn_srlw, 0xffff_ffff, 4), 0x0fff_ffff);
    assert_eq!(exec_alu(T::insn_sraw, 0xffff_ffff, 4), u64::MAX);
    assert_eq!(exec_alu(T::insn_mulw, 3, 5), 15);
    assert_eq!(exec_alu(T::insn_divw, r(-15), 4), r(-3));
    assert_eq!(exec_alu(T::insn_divuw, 15, 4), 3);
    assert_eq!(exec_alu(T::insn_remw, r(-15), 4), r(-3));
    assert_eq!(exec_alu(T::insn_remuw, 15, 4), 3);
    assert_eq!(exec_alu(T::insn_beq, 15, 4), 0);
}

#[test]
fn conversions_between_views_of_a_register() {
    assert_eq!(to_signed(0), 0);
    assert_eq!(to_signed(0x7fff_ffff_ffff_ffff), i64::MAX);
    assert_eq!(from_signed(-1), u64::MAX);
    assert_eq!(from_signed(i64::MIN), MIN64);
    assert_eq!(low_word(0x1234_5678_9abc_def0), 0x9abc_def0);
    assert_eq!(signed_word(0x1234_5678_ffff_ffff), -1);
    assert_eq!(signed_word(0x7fff_ffff), i32::MAX);
    assert_eq!(extend_word(0x8000_0000), 0xffff_ffff_8000_0000);
    assert_eq!(extend_word(0x7fff_ffff), 0x7fff_ffff);
    assert_eq!(extend_imm(-1), u64::MAX);
    assert_eq!(extend_imm(i32::MIN), 0xffff_ffff_8000_0000);
    assert_eq!(extend_imm(2047), 2047);
}

#[test]
fn addresses_wrap_around() {
    assert_eq!(offset_addr(0, -1), u64::MAX);
    assert_eq!(offset_addr(u64::MAX, 1), 0);
    assert_eq!(offset_addr(0x1000, -0x800), 0x800);
    assert_eq!(offset_addr(0x1000, 0x7ff), 0x17ff);
    assert_eq!(advance_addr(u64::MAX - 1, 4), 2);
    assert_eq!(advance_addr(0x1000, 2), 0x1002);
}
