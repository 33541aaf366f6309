//! What the integer instructions compute: arithmetic that wraps around,
//! division that never traps, the upper halves of 128-bit products, shifts
//! that mask their amount, and the word forms that sign-extend 32 bits.

use crate::insn::insn_type_t;
use vstd::prelude::*;

verus! {

/// `x` reduced to 64 bits: the register value that stands for `x`.
pub open spec fn wrap64(x: int) -> u64 {
    (x % 0x1_0000_0000_0000_0000) as u64
}

/// The register value `a` read as a two's complement number.
pub open spec fn signed64(a: u64) -> int {
    if a < 0x8000_0000_0000_0000 {
        a as int
    } else {
        a - 0x1_0000_0000_0000_0000
    }
}

/// The low 32 bits of `x`.
pub open spec fn low32(x: int) -> int {
    x % 0x1_0000_0000
}

/// The low 32 bits of `x` read as a two's complement number.
pub open spec fn signed32(x: int) -> int {
    if low32(x) < 0x8000_0000 {
        low32(x)
    } else {
        low32(x) - 0x1_0000_0000
    }
}

/// The low 32 bits of `x`, sign-extended to a register value: what a word
/// instruction leaves in its destination.
pub open spec fn word(x: int) -> u64 {
    wrap64(signed32(x))
}

/// The upper half of the 128-bit product `p`.
pub open spec fn high64(p: int) -> u64 {
    wrap64(p / 0x1_0000_0000_0000_0000)
}

/// The quotient of `x` by `y` rounded toward zero.
pub open spec fn quot(x: int, y: int) -> int
    recommends
        y != 0,
{
    if x >= 0 {
        if y > 0 {
            x / y
        } else {
            -(x / (-y))
        }
    } else {
        if y > 0 {
            -((-x) / y)
        } else {
            (-x) / (-y)
        }
    }
}

/// The size of `x` without its sign.
pub open spec fn magnitude(x: int) -> int {
    if x >= 0 {
        x
    } else {
        -x
    }
}

/// The remainder that belongs to `quot`: it is as large as the remainder of
/// the magnitudes and has the sign of `x`.
pub open spec fn rem(x: int, y: int) -> int
    recommends
        y != 0,
{
    if x >= 0 {
        magnitude(x) % magnitude(y)
    } else {
        -(magnitude(x) % magnitude(y))
    }
}

proof fn lemma_casts64(a: u64)
    by (bit_vector)
    ensures
        a as i64 == (if a < 0x8000_0000_0000_0000u64 { a as int } else { a - 0x1_0000_0000_0000_0000 }),
        a as u32 == a % 0x1_0000_0000,
{
}

proof fn lemma_cast_signed(x: i64)
    by (bit_vector)
    ensures
        x as u64 == (if x < 0 { x + 0x1_0000_0000_0000_0000 } else { x as int }),
{
}

proof fn lemma_casts32(w: u32)
    by (bit_vector)
    ensures
        w as i32 == (if w < 0x8000_0000u32 { w as int } else { w - 0x1_0000_0000 }),
{
}

proof fn lemma_high(p: i128)
    by (bit_vector)
    ensures
        (p >> 64) == p / 0x1_0000_0000_0000_0000,
{
}

/// Reads a register value as a signed number.
pub fn to_signed(a: u64) -> (r: i64)
    ensures
        r == signed64(a),
{
    proof {
        lemma_casts64(a);
    }
    #[verifier::truncate]
    (a as i64)
}

/// The register value that stands for a signed number.
pub fn from_signed(x: i64) -> (r: u64)
    ensures
        r == wrap64(x as int),
        signed64(r) == x,
{
    proof {
        lemma_cast_signed(x);
    }
    #[verifier::truncate]
    (x as u64)
}

/// The low 32 bits of a register value.
pub fn low_word(a: u64) -> (r: u32)
    ensures
        r == low32(a as int),
{
    proof {
        lemma_casts64(a);
    }
    #[verifier::truncate]
    (a as u32)
}

/// The low 32 bits of a register value as a signed number.
pub fn signed_word(a: u64) -> (r: i32)
    ensures
        r == signed32(a as int),
{
    let w = low_word(a);
    proof {
        lemma_casts32(w);
    }
    #[verifier::truncate]
    (w as i32)
}

/// Sign-extends a 32-bit result to a register value.
pub fn extend_word(w: u32) -> (r: u64)
    ensures
        r == word(w as int),
{
    proof {
        lemma_casts32(w);
    }
    let v: i32 = #[verifier::truncate]
    (w as i32);
    from_signed(v as i64)
}

/// Sign-extends an immediate to a register value.
pub fn extend_imm(imm: i32) -> (r: u64)
    ensures
        r == wrap64(imm as int),
        signed64(r) == imm,
{
    from_signed(imm as i64)
}

/// The address that lies `imm` bytes from `base`, in 64-bit arithmetic that
/// wraps around.
pub fn offset_addr(base: u64, imm: i32) -> (r: u64)
    ensures
        r == wrap64(base + imm),
{
    base.wrapping_add(extend_imm(imm))
}

/// The address `n` bytes above `base`, in 64-bit arithmetic that wraps
/// around.
pub fn advance_addr(base: u64, n: u64) -> (r: u64)
    ensures
        r == wrap64(base + n),
{
    base.wrapping_add(n)
}

/// What each integer instruction computes from its two operands. `a` is the
/// value of the first source register; `b` is the value of the second, or
/// the sign-extended immediate where the instruction has one.
pub open spec fn alu_result(t: insn_type_t, a: u64, b: u64) -> u64 {
    let x = signed64(a);
    let y = signed64(b);
    let xw = signed32(a as int);
    let yw = signed32(b as int);
    let aw = low32(a as int);
    let bw = low32(b as int);
    match t {
        insn_type_t::insn_add | insn_type_t::insn_addi => wrap64(a + b),
        insn_type_t::insn_sub => wrap64(a - b),
        insn_type_t::insn_sll | insn_type_t::insn_slli => a << (b % 64),
        insn_type_t::insn_slt | insn_type_t::insn_slti => if x < y {
            1
        } else {
            0
        },
        insn_type_t::insn_sltu | insn_type_t::insn_sltiu => if a < b {
            1
        } else {
            0
        },
        insn_type_t::insn_xor | insn_type_t::insn_xori => a ^ b,
        insn_type_t::insn_or | insn_type_t::insn_ori => a | b,
        insn_type_t::insn_and | insn_type_t::insn_andi => a & b,
        insn_type_t::insn_srl | insn_type_t::insn_srli => a >> (b % 64),
        insn_type_t::insn_sra | insn_type_t::insn_srai => wrap64(((x as i64) >> (b % 64)) as int),
        insn_type_t::insn_mul => wrap64(a * b),
        insn_type_t::insn_mulh => high64(x * y),
        insn_type_t::insn_mulhsu => high64(x * b),
        insn_type_t::insn_mulhu => high64(a * b),
        insn_type_t::insn_div => if b == 0 {
            u64::MAX
        } else if x == i64::MIN && y == -1 {
            a
        } else {
            wrap64(quot(x, y))
        },
        insn_type_t::insn_divu => if b == 0 {
            u64::MAX
        } else {
            a / b
        },
        insn_type_t::insn_rem => if b == 0 {
            a
        } else if x == i64::MIN && y == -1 {
            0
        } else {
            wrap64(rem(x, y))
        },
        insn_type_t::insn_remu => if b == 0 {
            a
        } else {
            a % b
        },
        insn_type_t::insn_addw | insn_type_t::insn_addiw => word(a + b),
        insn_type_t::insn_subw => word(a - b),
        insn_type_t::insn_sllw | insn_type_t::insn_slliw => word(((aw as u32) << (b % 32)) as int),
        insn_type_t::insn_srlw | insn_type_t::insn_srliw => word(((aw as u32) >> (b % 32)) as int),
        insn_type_t::insn_sraw | insn_type_t::insn_sraiw => word(((xw as i32) >> (b % 32)) as int),
        insn_type_t::insn_mulw => word(a * b),
        insn_type_t::insn_divw => if bw == 0 {
            u64::MAX
        } else if xw == i32::MIN && yw == -1 {
            word(xw)
        } else {
            word(quot(xw, yw))
        },
        insn_type_t::insn_divuw => if bw == 0 {
            u64::MAX
        } else {
            word(aw / bw)
        },
        insn_type_t::insn_remw => if bw == 0 {
            word(xw)
        } else if xw == i32::MIN && yw == -1 {
            0
        } else {
            word(rem(xw, yw))
        },
        insn_type_t::insn_remuw => if bw == 0 {
            word(aw)
        } else {
            word(aw % bw)
        },
        insn_type_t::insn_lui => b,
        _ => 0,
    }
}

pub fn func_add(rs1: u64, rs2: u64) -> (r: u64)
    ensures
        r == alu_result(insn_type_t::insn_add, rs1, rs2),
{
    rs1.wrapping_add(rs2)
}

pub fn func_sub(rs1: u64, rs2: u64) -> (r: u64)
    ensures
        r == alu_result(insn_type_t::insn_sub, rs1, rs2),
{
    rs1.wrapping_sub(rs2)
}

pub fn func_sll(rs1: u64, rs2: u64) -> (r: u64)
    ensures
        r == alu_result(insn_type_t::insn_sll, rs1, rs2),
{
    rs1 << (rs2 % 64)
}

pub fn func_slt(rs1: u64, rs2: u64) -> (r: u64)
    ensures
        r == alu_result(insn_type_t::insn_slt, rs1, rs2),
{
    if to_signed(rs1) < to_signed(rs2) {
        1
    } else {
        0
    }
}

pub fn func_sltu(rs1: u64, rs2: u64) -> (r: u64)
    ensures
        r == alu_result(insn_type_t::insn_sltu, rs1, rs2),
{
    if rs1 < rs2 {
        1
    } else {
        0
    }
}

pub fn func_xor(rs1: u64, rs2: u64) -> (r: u64)
    ensures
        r == alu_result(insn_type_t::insn_xor, rs1, rs2),
{
    rs1 ^ rs2
}

pub fn func_srl(rs1: u64, rs2: u64) -> (r: u64)
    ensures
        r == alu_result(insn_type_t::insn_srl, rs1, rs2),
{
    rs1 >> (rs2 % 64)
}

pub fn func_sra(rs1: u64, rs2: u64) -> (r: u64)
    ensures
        r == alu_result(insn_type_t::insn_sra, rs1, rs2),
{
    from_signed(to_signed(rs1) >> (rs2 % 64))
}

pub fn func_or(rs1: u64, rs2: u64) -> (r: u64)
    ensures
        r == alu_result(insn_type_t::insn_or, rs1, rs2),
{
    rs1 | rs2
}

pub fn func_and(rs1: u64, rs2: u64) -> (r: u64)
    ensures
        r == alu_result(insn_type_t::insn_and, rs1, rs2),
{
    rs1 & rs2
}

pub fn func_mul(rs1: u64, rs2: u64) -> (r: u64)
    ensures
        r == alu_result(insn_type_t::insn_mul, rs1, rs2),
{
    rs1.wrapping_mul(rs2)
}

proof fn lemma_product_bounds(x: int, y: int, bx: int, by: int)
    by (nonlinear_arith)
    requires
        -bx <= x <= bx,
        -by <= y <= by,
    ensures
        -(bx * by) <= x * y <= bx * by,
{
}

/// The upper half of the signed 128-bit product of the two registers.
pub fn func_mulh(rs1: u64, rs2: u64) -> (r: u64)
    ensures
        r == alu_result(insn_type_t::insn_mulh, rs1, rs2),
{
    let x: i128 = to_signed(rs1) as i128;
    let y: i128 = to_signed(rs2) as i128;
    proof {
        lemma_product_bounds(x as int, y as int, 0x8000_0000_0000_0000, 0x8000_0000_0000_0000);
        assert(0x8000_0000_0000_0000int * 0x8000_0000_0000_0000int
            == 0x4000_0000_0000_0000_0000_0000_0000_0000int) by (nonlinear_arith);
    }
    let p: i128 = x * y;
    proof {
        lemma_high(p);
    }
    let q: i128 = p >> 64;
    from_signed(q as i64)
}

/// The upper half of the 128-bit product of the first register, signed, and
/// the second, unsigned.
pub fn func_mulhsu(rs1: u64, rs2: u64) -> (r: u64)
    ensures
        r == alu_result(insn_type_t::insn_mulhsu, rs1, rs2),
{
    let x: i128 = to_signed(rs1) as i128;
    let y: i128 = rs2 as i128;
    proof {
        lemma_product_bounds(x as int, y as int, 0x8000_0000_0000_0000, 0xffff_ffff_ffff_ffff);
        assert(0x8000_0000_0000_0000int * 0xffff_ffff_ffff_ffffint
            == 0x7fff_ffff_ffff_ffff_8000_0000_0000_0000int) by (nonlinear_arith);
    }
    let p: i128 = x * y;
    proof {
        lemma_high(p);
    }
    let q: i128 = p >> 64;
    from_signed(q as i64)
}

/// The upper half of the unsigned 128-bit product of the two registers.
pub fn func_mulhu(rs1: u64, rs2: u64) -> (r: u64)
    ensures
        r == alu_result(insn_type_t::insn_mulhu, rs1, rs2),
{
    let x: u128 = rs1 as u128;
    let y: u128 = rs2 as u128;
    proof {
        lemma_product_bounds(x as int, y as int, 0xffff_ffff_ffff_ffff, 0xffff_ffff_ffff_ffff);
        assert(0xffff_ffff_ffff_ffffint * 0xffff_ffff_ffff_ffffint
            == 0xffff_ffff_ffff_fffe_0000_0000_0000_0001int) by (nonlinear_arith);
        assert(x * y >= 0) by (nonlinear_arith)
            requires
                x >= 0,
                y >= 0,
        ;
    }
    let p: u128 = x * y;
    (p / 0x1_0000_0000_0000_0000) as u64
}

/// The size of the signed value of a register, which fits a register even
/// for the most negative value.
fn magnitude_of(a: u64) -> (m: u64)
    ensures
        m == magnitude(signed64(a)),
{
    if a >= 0x8000_0000_0000_0000 {
        0u64.wrapping_sub(a)
    } else {
        a
    }
}

/// The register value of minus `m`.
fn negated(m: u64) -> (r: u64)
    ensures
        r == wrap64(-(m as int)),
{
    0u64.wrapping_sub(m)
}

/// Signed division that never traps: by zero it gives all ones, and the one
/// quotient that does not fit, of the most negative value by minus one, is
/// the dividend.
pub fn func_div(rs1: u64, rs2: u64) -> (r: u64)
    ensures
        r == alu_result(insn_type_t::insn_div, rs1, rs2),
        rs2 == 0 ==> signed64(r) == -1,
        signed64(rs1) == i64::MIN && signed64(rs2) == -1 ==> r == rs1,
{
    if rs2 == 0 {
        u64::MAX
    } else if rs1 == 0x8000_0000_0000_0000 && rs2 == u64::MAX {
        rs1
    } else {
        let q: u64 = magnitude_of(rs1) / magnitude_of(rs2);
        if (rs1 >= 0x8000_0000_0000_0000) != (rs2 >= 0x8000_0000_0000_0000) {
            negated(q)
        } else {
            q
        }
    }
}

/// Unsigned division that never traps: by zero it gives all ones.
pub fn func_divu(rs1: u64, rs2: u64) -> (r: u64)
    ensures
        r == alu_result(insn_type_t::insn_divu, rs1, rs2),
        rs2 == 0 ==> r == u64::MAX,
{
    if rs2 == 0 {
        u64::MAX
    } else {
        rs1 / rs2
    }
}

/// The signed remainder that never traps: by zero it is the dividend, and of
/// the most negative value by minus one it is zero.
pub fn func_rem(rs1: u64, rs2: u64) -> (r: u64)
    ensures
        r == alu_result(insn_type_t::insn_rem, rs1, rs2),
        rs2 == 0 ==> r == rs1,
        signed64(rs1) == i64::MIN && signed64(rs2) == -1 ==> r == 0,
{
    if rs2 == 0 {
        rs1
    } else if rs1 == 0x8000_0000_0000_0000 && rs2 == u64::MAX {
        0
    } else {
        let m: u64 = magnitude_of(rs1) % magnitude_of(rs2);
        if rs1 >= 0x8000_0000_0000_0000 {
            negated(m)
        } else {
            m
        }
    }
}

/// The unsigned remainder that never traps: by zero it is the dividend.
pub fn func_remu(rs1: u64, rs2: u64) -> (r: u64)
    ensures
        r == alu_result(insn_type_t::insn_remu, rs1, rs2),
        rs2 == 0 ==> r == rs1,
{
    if rs2 == 0 {
        rs1
    } else {
        rs1 % rs2
    }
}

/// A word instruction sees only the low 32 bits of what it computes, so it
/// may compute in 64 bits.
proof fn lemma_word_of_wrapped(v: int)
    ensures
        word(wrap64(v) as int) == word(v),
{
    let w = wrap64(v) as int;
    assert(w % 0x1_0000_0000 == v % 0x1_0000_0000) by {
        assert(w == v % 0x1_0000_0000_0000_0000);
        assert(0x1_0000_0000_0000_0000int == 0x1_0000_0000 * 0x1_0000_0000int);
        vstd::arithmetic::div_mod::lemma_mod_mod(v, 0x1_0000_0000, 0x1_0000_0000);
    }
}

pub fn func_addw(rs1: u64, rs2: u64) -> (r: u64)
    ensures
        r == alu_result(insn_type_t::insn_addw, rs1, rs2),
{
    proof {
        lemma_word_of_wrapped(rs1 + rs2);
    }
    extend_word(low_word(rs1.wrapping_add(rs2)))
}

pub fn func_subw(rs1: u64, rs2: u64) -> (r: u64)
    ensures
        r == alu_result(insn_type_t::insn_subw, rs1, rs2),
{
    proof {
        lemma_word_of_wrapped(rs1 - rs2);
    }
    extend_word(low_word(rs1.wrapping_sub(rs2)))
}

pub fn func_sllw(rs1: u64, rs2: u64) -> (r: u64)
    ensures
        r == alu_result(insn_type_t::insn_sllw, rs1, rs2),
{
    extend_word(low_word(rs1) << (rs2 % 32))
}

pub fn func_srlw(rs1: u64, rs2: u64) -> (r: u64)
    ensures
        r == alu_result(insn_type_t::insn_srlw, rs1, rs2),
{
    extend_word(low_word(rs1) >> (rs2 % 32))
}

pub fn func_sraw(rs1: u64, rs2: u64) -> (r: u64)
    ensures
        r == alu_result(insn_type_t::insn_sraw, rs1, rs2),
{
    from_signed((signed_word(rs1) >> (rs2 % 32)) as i64)
}

pub fn func_mulw(rs1: u64, rs2: u64) -> (r: u64)
    ensures
        r == alu_result(insn_type_t::insn_mulw, rs1, rs2),
{
    proof {
        lemma_word_of_wrapped(rs1 * rs2);
    }
    extend_word(low_word(rs1.wrapping_mul(rs2)))
}

/// Signed division of the low words that never traps: by zero it gives all
/// ones, and the one quotient that does not fit is the dividend.
pub fn func_divw(rs1: u64, rs2: u64) -> (r: u64)
    ensures
        r == alu_result(insn_type_t::insn_divw, rs1, rs2),
        low32(rs2 as int) == 0 ==> signed64(r) == -1,
        signed32(rs1 as int) == i32::MIN && signed32(rs2 as int) == -1 ==> r == word(rs1 as int),
{
    let x: i32 = signed_word(rs1);
    let y: i32 = signed_word(rs2);
    if y == 0 {
        u64::MAX
    } else if x == i32::MIN && y == -1 {
        from_signed(x as i64)
    } else {
        let q: u64 = func_div(from_signed(x as i64), from_signed(y as i64));
        proof {
            lemma_word_of_wrapped(quot(x as int, y as int));
        }
        extend_word(low_word(q))
    }
}

/// Unsigned division of the low words that never traps: by zero it gives all
/// ones.
pub fn func_divuw(rs1: u64, rs2: u64) -> (r: u64)
    ensures
        r == alu_result(insn_type_t::insn_divuw, rs1, rs2),
        low32(rs2 as int) == 0 ==> r == u64::MAX,
{
    let a: u32 = low_word(rs1);
    let b: u32 = low_word(rs2);
    if b == 0 {
        u64::MAX
    } else {
        extend_word(a / b)
    }
}

/// The signed remainder of the low words that never traps: by zero it is the
/// dividend, and of the most negative word by minus one it is zero.
pub fn func_remw(rs1: u64, rs2: u64) -> (r: u64)
    ensures
        r == alu_result(insn_type_t::insn_remw, rs1, rs2),
        low32(rs2 as int) == 0 ==> r == word(rs1 as int),
        signed32(rs1 as int) == i32::MIN && signed32(rs2 as int) == -1 ==> r == 0,
{
    let x: i32 = signed_word(rs1);
    let y: i32 = signed_word(rs2);
    if y == 0 {
        from_signed(x as i64)
    } else if x == i32::MIN && y == -1 {
        0
    } else {
        let m: u64 = func_rem(from_signed(x as i64), from_signed(y as i64));
        proof {
            lemma_word_of_wrapped(rem(x as int, y as int));
        }
        extend_word(low_word(m))
    }
}

/// The unsigned remainder of the low words that never traps: by zero it is
/// the dividend.
pub fn func_remuw(rs1: u64, rs2: u64) -> (r: u64)
    ensures
        r == alu_result(insn_type_t::insn_remuw, rs1, rs2),
        low32(rs2 as int) == 0 ==> r == word(rs1 as int),
{
    let a: u32 = low_word(rs1);
    let b: u32 = low_word(rs2);
    if b == 0 {
        extend_word(a)
    } else {
        extend_word(a % b)
    }
}

/// Computes the result of the integer instruction `t` from its two operands:
/// one routine for each instruction, chosen by `t` alone. `b` is the value
/// of the second source register, or the sign-extended immediate where the
/// instruction has one.
pub fn exec_alu(t: insn_type_t, a: u64, b: u64) -> (r: u64)
    ensures
        r == alu_result(t, a, b),
{
    match t {
        insn_type_t::insn_add | insn_type_t::insn_addi => func_add(a, b),
        insn_type_t::insn_sub => func_sub(a, b),
        insn_type_t::insn_sll | insn_type_t::insn_slli => func_sll(a, b),
        insn_type_t::insn_slt | insn_type_t::insn_slti => func_slt(a, b),
        insn_type_t::insn_sltu | insn_type_t::insn_sltiu => func_sltu(a, b),
        insn_type_t::insn_xor | insn_type_t::insn_xori => func_xor(a, b),
        insn_type_t::insn_or | insn_type_t::insn_ori => func_or(a, b),
        insn_type_t::insn_and | insn_type_t::insn_andi => func_and(a, b),
        insn_type_t::insn_srl | insn_type_t::insn_srli => func_srl(a, b),
        insn_type_t::insn_sra | insn_type_t::insn_srai => func_sra(a, b),
        insn_type_t::insn_mul => func_mul(a, b),
        insn_type_t::insn_mulh => func_mulh(a, b),
        insn_type_t::insn_mulhsu => func_mulhsu(a, b),
        insn_type_t::insn_mulhu => func_mulhu(a, b),
        insn_type_t::insn_div => func_div(a, b),
        insn_type_t::insn_divu => func_divu(a, b),
        insn_type_t::insn_rem => func_rem(a, b),
        insn_type_t::insn_remu => func_remu(a, b),
        insn_type_t::insn_addw | insn_type_t::insn_addiw => func_addw(a, b),
        insn_type_t::insn_subw => func_subw(a, b),
        insn_type_t::insn_sllw | insn_type_t::insn_slliw => func_sllw(a, b),
        insn_type_t::insn_srlw | insn_type_t::insn_srliw => func_srlw(a, b),
        insn_type_t::insn_sraw | insn_type_t::insn_sraiw => func_sraw(a, b),
        insn_type_t::insn_mulw => func_mulw(a, b),
        insn_type_t::insn_divw => func_divw(a, b),
        insn_type_t::insn_divuw => func_divuw(a, b),
        insn_type_t::insn_remw => func_remw(a, b),
        insn_type_t::insn_remuw => func_remuw(a, b),
        insn_type_t::insn_lui => b,
        _ => 0,
    }
}

} // verus!
