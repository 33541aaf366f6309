//! The decoder: from an encoding of two or four bytes to the record of the
//! instruction, or the finding that no instruction is defined for it.

use crate::insn::{
    cfunct1, cfunct2high, cfunct2low, copcode, funct2, funct3, funct7, imm116, imm_b, imm_cb,
    imm_ci, imm_ci2, imm_ci3, imm_ci4, imm_ci5, imm_ciw, imm_cj, imm_cs, imm_cs2, imm_css, imm_css2,
    imm_i, imm_j, imm_s, imm_u, insn_t, insn_type_t, lemma_half_fields, lemma_word_fields, opcode,
    rc1, rs2, spec_cfunct1, spec_cfunct2high, spec_cfunct2low, spec_copcode, spec_csr, spec_funct2,
    spec_funct3, spec_funct7, spec_imm116, spec_opcode, spec_rc1, spec_rc2, spec_rd, spec_rp1,
    spec_rp2, spec_rs1, spec_rs2, spec_rs3,
};
use vstd::prelude::*;

verus! {

/// The layout of the operand fields of a four-byte encoding.
#[derive(Copy, Clone, Debug, PartialEq, Eq, Structural)]
pub enum format_t {
    /// `rd`, `rs1`, `rs2`.
    r,
    /// `rd`, `rs1` and a signed 12-bit immediate.
    i,
    /// `rs1`, `rs2` and a signed 12-bit offset.
    s,
    /// `rs1`, `rs2` and a signed 13-bit offset.
    b,
    /// `rd` and a 20-bit upper immediate.
    u,
    /// `rd` and a signed 21-bit offset.
    j,
    /// `rd`, `rs1` and the number of a control and status register.
    csr,
    /// `rd`, `rs1`, `rs2`, `rs3`.
    r4,
    /// No operand at all.
    bare,
}

/// The low two bits of an encoding. Three marks a four-byte encoding; each
/// other value is one group of two-byte encodings.
pub open spec fn spec_quadrant(data: u32) -> u32 {
    data & 0x3
}

/// The instruction that the selector fields of a four-byte encoding name, if
/// they name one.
pub open spec fn select_word(data: u32) -> Option<insn_type_t> {
    let f3 = spec_funct3(data);
    let f7 = spec_funct7(data);
    let r2 = spec_rs2(data);
    match spec_opcode(data) {
        0x0 => match f3 {
                0x0 => Some(insn_type_t::insn_lb),
                0x1 => Some(insn_type_t::insn_lh),
                0x2 => Some(insn_type_t::insn_lw),
                0x3 => Some(insn_type_t::insn_ld),
                0x4 => Some(insn_type_t::insn_lbu),
                0x5 => Some(insn_type_t::insn_lhu),
                0x6 => Some(insn_type_t::insn_lwu),
                _ => None,
            },
        0x1 => match f3 {
                0x2 => Some(insn_type_t::insn_flw),
                0x3 => Some(insn_type_t::insn_fld),
                _ => None,
            },
        0x3 => match f3 {
                0x0 => Some(insn_type_t::insn_fence),
                0x1 => Some(insn_type_t::insn_fence_i),
                _ => None,
            },
        0x4 => match f3 {
                0x0 => Some(insn_type_t::insn_addi),
                0x1 => if spec_imm116(data) == 0 { Some(insn_type_t::insn_slli) } else { None },
                0x2 => Some(insn_type_t::insn_slti),
                0x3 => Some(insn_type_t::insn_sltiu),
                0x4 => Some(insn_type_t::insn_xori),
                0x5 => if spec_imm116(data) == 0 {
                    Some(insn_type_t::insn_srli)
                } else if spec_imm116(data) == 0x10 {
                    Some(insn_type_t::insn_srai)
                } else {
                    None
                },
                0x6 => Some(insn_type_t::insn_ori),
                0x7 => Some(insn_type_t::insn_andi),
                _ => None,
            },
        0x5 => Some(insn_type_t::insn_auipc),
        0x6 => match f3 {
                0x0 => Some(insn_type_t::insn_addiw),
                0x1 => if f7 == 0 { Some(insn_type_t::insn_slliw) } else { None },
                0x5 => if f7 == 0 {
                    Some(insn_type_t::insn_srliw)
                } else if f7 == 0x20 {
                    Some(insn_type_t::insn_sraiw)
                } else {
                    None
                },
                _ => None,
            },
        0x8 => match f3 {
                0x0 => Some(insn_type_t::insn_sb),
                0x1 => Some(insn_type_t::insn_sh),
                0x2 => Some(insn_type_t::insn_sw),
                0x3 => Some(insn_type_t::insn_sd),
                _ => None,
            },
        0x9 => match f3 {
                0x2 => Some(insn_type_t::insn_fsw),
                0x3 => Some(insn_type_t::insn_fsd),
                _ => None,
            },
        0xc => match f7 {
                0x0 => match f3 {
                    0x0 => Some(insn_type_t::insn_add),
                    0x1 => Some(insn_type_t::insn_sll),
                    0x2 => Some(insn_type_t::insn_slt),
                    0x3 => Some(insn_type_t::insn_sltu),
                    0x4 => Some(insn_type_t::insn_xor),
                    0x5 => Some(insn_type_t::insn_srl),
                    0x6 => Some(insn_type_t::insn_or),
                    0x7 => Some(insn_type_t::insn_and),
                    _ => None,
                },
                0x1 => match f3 {
                    0x0 => Some(insn_type_t::insn_mul),
                    0x1 => Some(insn_type_t::insn_mulh),
                    0x2 => Some(insn_type_t::insn_mulhsu),
                    0x3 => Some(insn_type_t::insn_mulhu),
                    0x4 => Some(insn_type_t::insn_div),
                    0x5 => Some(insn_type_t::insn_divu),
                    0x6 => Some(insn_type_t::insn_rem),
                    0x7 => Some(insn_type_t::insn_remu),
                    _ => None,
                },
                0x20 => match f3 {
                    0x0 => Some(insn_type_t::insn_sub),
                    0x5 => Some(insn_type_t::insn_sra),
                    _ => None,
                },
                _ => None,
            },
        0xd => Some(insn_type_t::insn_lui),
        0xe => match f7 {
                0x0 => match f3 {
                    0x0 => Some(insn_type_t::insn_addw),
                    0x1 => Some(insn_type_t::insn_sllw),
                    0x5 => Some(insn_type_t::insn_srlw),
                    _ => None,
                },
                0x1 => match f3 {
                    0x0 => Some(insn_type_t::insn_mulw),
                    0x4 => Some(insn_type_t::insn_divw),
                    0x5 => Some(insn_type_t::insn_divuw),
                    0x6 => Some(insn_type_t::insn_remw),
                    0x7 => Some(insn_type_t::insn_remuw),
                    _ => None,
                },
                0x20 => match f3 {
                    0x0 => Some(insn_type_t::insn_subw),
                    0x5 => Some(insn_type_t::insn_sraw),
                    _ => None,
                },
                _ => None,
            },
        0x10 => match spec_funct2(data) {
                0x0 => Some(insn_type_t::insn_fmadd_s),
                0x1 => Some(insn_type_t::insn_fmadd_d),
                _ => None,
            },
        0x11 => match spec_funct2(data) {
                0x0 => Some(insn_type_t::insn_fmsub_s),
                0x1 => Some(insn_type_t::insn_fmsub_d),
                _ => None,
            },
        0x12 => match spec_funct2(data) {
                0x0 => Some(insn_type_t::insn_fnmsub_s),
                0x1 => Some(insn_type_t::insn_fnmsub_d),
                _ => None,
            },
        0x13 => match spec_funct2(data) {
                0x0 => Some(insn_type_t::insn_fnmadd_s),
                0x1 => Some(insn_type_t::insn_fnmadd_d),
                _ => None,
            },
        0x14 => match f7 {
                0x0 => Some(insn_type_t::insn_fadd_s),
                0x1 => Some(insn_type_t::insn_fadd_d),
                0x4 => Some(insn_type_t::insn_fsub_s),
                0x5 => Some(insn_type_t::insn_fsub_d),
                0x8 => Some(insn_type_t::insn_fmul_s),
                0x9 => Some(insn_type_t::insn_fmul_d),
                0xc => Some(insn_type_t::insn_fdiv_s),
                0xd => Some(insn_type_t::insn_fdiv_d),
                0x10 => match f3 {
                    0x0 => Some(insn_type_t::insn_fsgnj_s),
                    0x1 => Some(insn_type_t::insn_fsgnjn_s),
                    0x2 => Some(insn_type_t::insn_fsgnjx_s),
                    _ => None,
                },
                0x11 => match f3 {
                    0x0 => Some(insn_type_t::insn_fsgnj_d),
                    0x1 => Some(insn_type_t::insn_fsgnjn_d),
                    0x2 => Some(insn_type_t::insn_fsgnjx_d),
                    _ => None,
                },
                0x14 => match f3 {
                    0x0 => Some(insn_type_t::insn_fmin_s),
                    0x1 => Some(insn_type_t::insn_fmax_s),
                    _ => None,
                },
                0x15 => match f3 {
                    0x0 => Some(insn_type_t::insn_fmin_d),
                    0x1 => Some(insn_type_t::insn_fmax_d),
                    _ => None,
                },
                0x20 => if r2 == 1 { Some(insn_type_t::insn_fcvt_s_d) } else { None },
                0x21 => if r2 == 0 { Some(insn_type_t::insn_fcvt_d_s) } else { None },
                0x2c => if r2 == 0 { Some(insn_type_t::insn_fsqrt_s) } else { None },
                0x2d => if r2 == 0 { Some(insn_type_t::insn_fsqrt_d) } else { None },
                0x50 => match f3 {
                    0x0 => Some(insn_type_t::insn_fle_s),
                    0x1 => Some(insn_type_t::insn_flt_s),
                    0x2 => Some(insn_type_t::insn_feq_s),
                    _ => None,
                },
                0x51 => match f3 {
                    0x0 => Some(insn_type_t::insn_fle_d),
                    0x1 => Some(insn_type_t::insn_flt_d),
                    0x2 => Some(insn_type_t::insn_feq_d),
                    _ => None,
                },
                0x60 => match r2 {
                    0x0 => Some(insn_type_t::insn_fcvt_w_s),
                    0x1 => Some(insn_type_t::insn_fcvt_wu_s),
                    0x2 => Some(insn_type_t::insn_fcvt_l_s),
                    0x3 => Some(insn_type_t::insn_fcvt_lu_s),
                    _ => None,
                },
                0x61 => match r2 {
                    0x0 => Some(insn_type_t::insn_fcvt_w_d),
                    0x1 => Some(insn_type_t::insn_fcvt_wu_d),
                    0x2 => Some(insn_type_t::insn_fcvt_l_d),
                    0x3 => Some(insn_type_t::insn_fcvt_lu_d),
                    _ => None,
                },
                0x68 => match r2 {
                    0x0 => Some(insn_type_t::insn_fcvt_s_w),
                    0x1 => Some(insn_type_t::insn_fcvt_s_wu),
                    0x2 => Some(insn_type_t::insn_fcvt_s_l),
                    0x3 => Some(insn_type_t::insn_fcvt_s_lu),
                    _ => None,
                },
                0x69 => match r2 {
                    0x0 => Some(insn_type_t::insn_fcvt_d_w),
                    0x1 => Some(insn_type_t::insn_fcvt_d_wu),
                    0x2 => Some(insn_type_t::insn_fcvt_d_l),
                    0x3 => Some(insn_type_t::insn_fcvt_d_lu),
                    _ => None,
                },
                0x70 => if r2 != 0 { None } else { match f3 {
                    0x0 => Some(insn_type_t::insn_fmv_x_w),
                    0x1 => Some(insn_type_t::insn_fclass_s),
                    _ => None,
                } },
                0x71 => if r2 != 0 { None } else { match f3 {
                    0x0 => Some(insn_type_t::insn_fmv_x_d),
                    0x1 => Some(insn_type_t::insn_fclass_d),
                    _ => None,
                } },
                0x78 => if r2 == 0 && f3 == 0 { Some(insn_type_t::insn_fmv_w_x) } else { None },
                0x79 => if r2 == 0 && f3 == 0 { Some(insn_type_t::insn_fmv_d_x) } else { None },
                _ => None,
            },
        0x18 => match f3 {
                0x0 => Some(insn_type_t::insn_beq),
                0x1 => Some(insn_type_t::insn_bne),
                0x4 => Some(insn_type_t::insn_blt),
                0x5 => Some(insn_type_t::insn_bge),
                0x6 => Some(insn_type_t::insn_bltu),
                0x7 => Some(insn_type_t::insn_bgeu),
                _ => None,
            },
        0x19 => Some(insn_type_t::insn_jalr),
        0x1b => Some(insn_type_t::insn_jal),
        0x1c => if data == 0x73 { Some(insn_type_t::insn_ecall) } else { match f3 {
                0x1 => Some(insn_type_t::insn_csrrw),
                0x2 => Some(insn_type_t::insn_csrrs),
                0x3 => Some(insn_type_t::insn_csrrc),
                0x5 => Some(insn_type_t::insn_csrrwi),
                0x6 => Some(insn_type_t::insn_csrrsi),
                0x7 => Some(insn_type_t::insn_csrrci),
                _ => None,
            } },
        _ => None,
    }
}

/// The operand layout of each instruction in its four-byte encoding.
pub open spec fn insn_format(t: insn_type_t) -> format_t {
    match t {
        insn_type_t::insn_lb
        | insn_type_t::insn_lh
        | insn_type_t::insn_lw
        | insn_type_t::insn_ld
        | insn_type_t::insn_lbu
        | insn_type_t::insn_lhu
        | insn_type_t::insn_lwu
        | insn_type_t::insn_addi
        | insn_type_t::insn_slli
        | insn_type_t::insn_slti
        | insn_type_t::insn_sltiu
        | insn_type_t::insn_xori
        | insn_type_t::insn_srli
        | insn_type_t::insn_srai
        | insn_type_t::insn_ori
        | insn_type_t::insn_andi
        | insn_type_t::insn_addiw
        | insn_type_t::insn_slliw
        | insn_type_t::insn_srliw
        | insn_type_t::insn_sraiw
        | insn_type_t::insn_jalr
        | insn_type_t::insn_flw
        | insn_type_t::insn_fld => format_t::i,
        insn_type_t::insn_sb
        | insn_type_t::insn_sh
        | insn_type_t::insn_sw
        | insn_type_t::insn_sd
        | insn_type_t::insn_fsw
        | insn_type_t::insn_fsd => format_t::s,
        insn_type_t::insn_beq
        | insn_type_t::insn_bne
        | insn_type_t::insn_blt
        | insn_type_t::insn_bge
        | insn_type_t::insn_bltu
        | insn_type_t::insn_bgeu => format_t::b,
        insn_type_t::insn_auipc
        | insn_type_t::insn_lui => format_t::u,
        insn_type_t::insn_jal => format_t::j,
        insn_type_t::insn_csrrc
        | insn_type_t::insn_csrrci
        | insn_type_t::insn_csrrs
        | insn_type_t::insn_csrrsi
        | insn_type_t::insn_csrrw
        | insn_type_t::insn_csrrwi => format_t::csr,
        insn_type_t::insn_fmadd_s
        | insn_type_t::insn_fmsub_s
        | insn_type_t::insn_fnmsub_s
        | insn_type_t::insn_fnmadd_s
        | insn_type_t::insn_fmadd_d
        | insn_type_t::insn_fmsub_d
        | insn_type_t::insn_fnmsub_d
        | insn_type_t::insn_fnmadd_d => format_t::r4,
        insn_type_t::insn_fence
        | insn_type_t::insn_fence_i
        | insn_type_t::insn_ecall
        | insn_type_t::num_insns => format_t::bare,
        _ => format_t::r,
    }
}

/// The operands that a four-byte encoding holds when it is laid out as `f`;
/// what the layout does not hold is zero.
pub open spec fn read_format(f: format_t, data: u32) -> insn_t {
    let z = insn_t::blank();
    match f {
        format_t::r => insn_t { rs1: spec_rs1(data), rs2: spec_rs2(data), rd: spec_rd(data), ..z },
        format_t::i => insn_t { imm: imm_i(data), rs1: spec_rs1(data), rd: spec_rd(data), ..z },
        format_t::s => insn_t { imm: imm_s(data), rs1: spec_rs1(data), rs2: spec_rs2(data), ..z },
        format_t::b => insn_t { imm: imm_b(data), rs1: spec_rs1(data), rs2: spec_rs2(data), ..z },
        format_t::u => insn_t { imm: imm_u(data), rd: spec_rd(data), ..z },
        format_t::j => insn_t { imm: imm_j(data), rd: spec_rd(data), ..z },
        format_t::csr => insn_t { csr: spec_csr(data), rs1: spec_rs1(data), rd: spec_rd(data), ..z },
        format_t::r4 => insn_t {
            rs1: spec_rs1(data),
            rs2: spec_rs2(data),
            rs3: spec_rs3(data),
            rd: spec_rd(data),
            ..z
        },
        format_t::bare => z,
    }
}

/// The instructions that end a block wherever they stand: the two jumps and
/// the environment call. A branch ends a block only when it is taken, which
/// is not known before it executes.
pub open spec fn ends_block(t: insn_type_t) -> bool {
    t == insn_type_t::insn_jal || t == insn_type_t::insn_jalr || t == insn_type_t::insn_ecall
}

/// The record that a four-byte encoding decodes to, if it is defined.
pub open spec fn decode_word(data: u32) -> Option<insn_t> {
    match select_word(data) {
        Some(t) => Some(
            insn_t { type_: t, cont: ends_block(t), ..read_format(insn_format(t), data) },
        ),
        None => None,
    }
}

/// The record of a two-byte encoding of `t` with these operands.
pub open spec fn compressed(t: insn_type_t, rd: u8, rs1: u8, rs2: u8, imm: i32) -> insn_t {
    insn_t { rd, rs1, rs2, rs3: 0, imm, csr: 0, type_: t, rvc: true, cont: ends_block(t) }
}

/// One of the registers 8 to 15, named by a three-bit field.
pub open spec fn prime(field: u8) -> u8 {
    (field + 8) as u8
}

/// The record that a two-byte encoding of quadrant 0 decodes to, if it is
/// defined: loads and stores through a register of 8 to 15, and the address
/// of a stack slot.
pub open spec fn decode_q0(data: u16) -> Option<insn_t> {
    let r1 = prime(spec_rp1(data));
    let r2 = prime(spec_rp2(data));
    match spec_copcode(data) {
        0x0 => if imm_ciw(data) != 0 {
            Some(compressed(insn_type_t::insn_addi, r2, 2, 0, imm_ciw(data)))
        } else {
            None
        },
        0x1 => Some(compressed(insn_type_t::insn_fld, r2, r1, 0, imm_cs(data))),
        0x2 => Some(compressed(insn_type_t::insn_lw, r2, r1, 0, imm_cs2(data))),
        0x3 => Some(compressed(insn_type_t::insn_ld, r2, r1, 0, imm_cs(data))),
        0x5 => Some(compressed(insn_type_t::insn_fsd, 0, r1, r2, imm_cs(data))),
        0x6 => Some(compressed(insn_type_t::insn_sw, 0, r1, r2, imm_cs2(data))),
        0x7 => Some(compressed(insn_type_t::insn_sd, 0, r1, r2, imm_cs(data))),
        _ => None,
    }
}

/// The instruction that a two-byte register-to-register operation names.
pub open spec fn select_q1_alu(wide: u8, op: u8) -> Option<insn_type_t> {
    if wide == 0 {
        match op {
            0x0 => Some(insn_type_t::insn_sub),
            0x1 => Some(insn_type_t::insn_xor),
            0x2 => Some(insn_type_t::insn_or),
            _ => Some(insn_type_t::insn_and),
        }
    } else {
        match op {
            0x0 => Some(insn_type_t::insn_subw),
            0x1 => Some(insn_type_t::insn_addw),
            _ => None,
        }
    }
}

/// The record that a two-byte encoding of quadrant 1 decodes to, if it is
/// defined: arithmetic with an immediate, arithmetic on the registers 8 to
/// 15, the jump and the two branches against zero.
pub open spec fn decode_q1(data: u16) -> Option<insn_t> {
    let rd = spec_rc1(data);
    let r1 = prime(spec_rp1(data));
    let r2 = prime(spec_rp2(data));
    match spec_copcode(data) {
        0x0 => Some(compressed(insn_type_t::insn_addi, rd, rd, 0, imm_ci(data))),
        0x1 => if rd != 0 {
            Some(compressed(insn_type_t::insn_addiw, rd, rd, 0, imm_ci(data)))
        } else {
            None
        },
        0x2 => Some(compressed(insn_type_t::insn_addi, rd, 0, 0, imm_ci(data))),
        0x3 => if rd == 2 {
            if imm_ci3(data) != 0 {
                Some(compressed(insn_type_t::insn_addi, 2, 2, 0, imm_ci3(data)))
            } else {
                None
            }
        } else {
            if imm_ci5(data) != 0 {
                Some(compressed(insn_type_t::insn_lui, rd, 0, 0, imm_ci5(data)))
            } else {
                None
            }
        },
        0x4 => match spec_cfunct2high(data) {
            0x0 => Some(compressed(insn_type_t::insn_srli, r1, r1, 0, imm_ci(data))),
            0x1 => Some(compressed(insn_type_t::insn_srai, r1, r1, 0, imm_ci(data))),
            0x2 => Some(compressed(insn_type_t::insn_andi, r1, r1, 0, imm_ci(data))),
            _ => match select_q1_alu(spec_cfunct1(data), spec_cfunct2low(data)) {
                Some(t) => Some(compressed(t, r1, r1, r2, 0)),
                None => None,
            },
        },
        0x5 => Some(compressed(insn_type_t::insn_jal, 0, 0, 0, imm_cj(data))),
        0x6 => Some(compressed(insn_type_t::insn_beq, 0, r1, 0, imm_cb(data))),
        _ => Some(compressed(insn_type_t::insn_bne, 0, r1, 0, imm_cb(data))),
    }
}

/// The record that a two-byte encoding of quadrant 2 decodes to, if it is
/// defined: the shift, loads and stores relative to the stack pointer, the
/// register move and add, and the jumps through a register.
pub open spec fn decode_q2(data: u16) -> Option<insn_t> {
    let r1 = spec_rc1(data);
    let r2 = spec_rc2(data);
    match spec_copcode(data) {
        0x0 => Some(compressed(insn_type_t::insn_slli, r1, r1, 0, imm_ci(data))),
        0x1 => Some(compressed(insn_type_t::insn_fld, r1, 2, 0, imm_ci2(data))),
        0x2 => if r1 != 0 {
            Some(compressed(insn_type_t::insn_lw, r1, 2, 0, imm_ci4(data)))
        } else {
            None
        },
        0x3 => if r1 != 0 {
            Some(compressed(insn_type_t::insn_ld, r1, 2, 0, imm_ci2(data)))
        } else {
            None
        },
        0x4 => if spec_cfunct1(data) == 0 {
            if r2 != 0 {
                Some(compressed(insn_type_t::insn_add, r1, 0, r2, 0))
            } else if r1 != 0 {
                Some(compressed(insn_type_t::insn_jalr, 0, r1, 0, 0))
            } else {
                None
            }
        } else {
            if r2 != 0 {
                Some(compressed(insn_type_t::insn_add, r1, r1, r2, 0))
            } else if r1 != 0 {
                Some(compressed(insn_type_t::insn_jalr, 1, r1, 0, 0))
            } else {
                None
            }
        },
        0x5 => Some(compressed(insn_type_t::insn_fsd, 0, 2, r2, imm_css(data))),
        0x6 => Some(compressed(insn_type_t::insn_sw, 0, 2, r2, imm_css2(data))),
        _ => Some(compressed(insn_type_t::insn_sd, 0, 2, r2, imm_css(data))),
    }
}

/// The record that an encoding decodes to, or `None` where no instruction is
/// defined for it. Of a two-byte encoding only the low half of `data` counts.
pub open spec fn decode_spec(data: u32) -> Option<insn_t> {
    let half = data as u16;
    match spec_quadrant(data) {
        0x0 => decode_q0(half),
        0x1 => decode_q1(half),
        0x2 => decode_q2(half),
        _ => decode_word(data),
    }
}

/// Bits 1..0: the quadrant of an encoding.
#[verifier::when_used_as_spec(spec_quadrant)]
pub fn quadrant(data: u32) -> (r: u32)
    ensures
        r == spec_quadrant(data),
        r < 4,
{
    assert(data & 0x3 < 4) by (bit_vector);
    data & 0x3
}

/// Decodes a four-byte encoding: picks the instruction by its opcode and
/// function fields and reads the operands in that instruction's layout.
/// Returns `None` where the fields name no instruction.
pub fn decode_full(data: u32) -> (r: Option<insn_t>)
    ensures
        r == decode_word(data),
{
    let mut insn = insn_t::default();
    match opcode(data) {
        0x0 => {
            insn.insn_itype_read(data);
            match funct3(data) {
                0x0 => insn.type_ = insn_type_t::insn_lb,
                0x1 => insn.type_ = insn_type_t::insn_lh,
                0x2 => insn.type_ = insn_type_t::insn_lw,
                0x3 => insn.type_ = insn_type_t::insn_ld,
                0x4 => insn.type_ = insn_type_t::insn_lbu,
                0x5 => insn.type_ = insn_type_t::insn_lhu,
                0x6 => insn.type_ = insn_type_t::insn_lwu,
                _ => return None,
            }
        }
        0x1 => {
            insn.insn_itype_read(data);
            match funct3(data) {
                0x2 => insn.type_ = insn_type_t::insn_flw,
                0x3 => insn.type_ = insn_type_t::insn_fld,
                _ => return None,
            }
        }
        0x3 => {
            match funct3(data) {
                0x0 => insn.type_ = insn_type_t::insn_fence,
                0x1 => insn.type_ = insn_type_t::insn_fence_i,
                _ => return None,
            }
        }
        0x4 => {
            insn.insn_itype_read(data);
            match funct3(data) {
                0x0 => insn.type_ = insn_type_t::insn_addi,
                0x1 => {
                    if imm116(data) == 0 {
                        insn.type_ = insn_type_t::insn_slli;
                    } else {
                        return None;
                    }
                }
                0x2 => insn.type_ = insn_type_t::insn_slti,
                0x3 => insn.type_ = insn_type_t::insn_sltiu,
                0x4 => insn.type_ = insn_type_t::insn_xori,
                0x5 => {
                    let imm116 = imm116(data);
                    if imm116 == 0x0 {
                        insn.type_ = insn_type_t::insn_srli;
                    } else if imm116 == 0x10 {
                        insn.type_ = insn_type_t::insn_srai;
                    } else {
                        return None;
                    }
                }
                0x6 => insn.type_ = insn_type_t::insn_ori,
                0x7 => insn.type_ = insn_type_t::insn_andi,
                _ => return None,
            }
        }
        0x5 => {
            insn.insn_utype_read(data);
            insn.type_ = insn_type_t::insn_auipc;
        }
        0x6 => {
            let funct7 = funct7(data);
            insn.insn_itype_read(data);
            match funct3(data) {
                0x0 => insn.type_ = insn_type_t::insn_addiw,
                0x1 => {
                    if funct7 != 0 {
                        return None;
                    }
                    insn.type_ = insn_type_t::insn_slliw;
                }
                0x5 => match funct7 {
                    0x0 => insn.type_ = insn_type_t::insn_srliw,
                    0x20 => insn.type_ = insn_type_t::insn_sraiw,
                    _ => return None,
                },
                _ => return None,
            }
        }
        0x8 => {
            insn.insn_stype_read(data);
            match funct3(data) {
                0x0 => insn.type_ = insn_type_t::insn_sb,
                0x1 => insn.type_ = insn_type_t::insn_sh,
                0x2 => insn.type_ = insn_type_t::insn_sw,
                0x3 => insn.type_ = insn_type_t::insn_sd,
                _ => return None,
            }
        }
        0x9 => {
            insn.insn_stype_read(data);
            match funct3(data) {
                0x2 => insn.type_ = insn_type_t::insn_fsw,
                0x3 => insn.type_ = insn_type_t::insn_fsd,
                _ => return None,
            }
        }
        0xc => {
            insn.insn_rtype_read(data);
            let funct3 = funct3(data);
            match funct7(data) {
                0x0 => match funct3 {
                    0x0 => insn.type_ = insn_type_t::insn_add,
                    0x1 => insn.type_ = insn_type_t::insn_sll,
                    0x2 => insn.type_ = insn_type_t::insn_slt,
                    0x3 => insn.type_ = insn_type_t::insn_sltu,
                    0x4 => insn.type_ = insn_type_t::insn_xor,
                    0x5 => insn.type_ = insn_type_t::insn_srl,
                    0x6 => insn.type_ = insn_type_t::insn_or,
                    0x7 => insn.type_ = insn_type_t::insn_and,
                    _ => return None,
                },
                0x1 => match funct3 {
                    0x0 => insn.type_ = insn_type_t::insn_mul,
                    0x1 => insn.type_ = insn_type_t::insn_mulh,
                    0x2 => insn.type_ = insn_type_t::insn_mulhsu,
                    0x3 => insn.type_ = insn_type_t::insn_mulhu,
                    0x4 => insn.type_ = insn_type_t::insn_div,
                    0x5 => insn.type_ = insn_type_t::insn_divu,
                    0x6 => insn.type_ = insn_type_t::insn_rem,
                    0x7 => insn.type_ = insn_type_t::insn_remu,
                    _ => return None,
                },
                0x20 => match funct3 {
                    0x0 => insn.type_ = insn_type_t::insn_sub,
                    0x5 => insn.type_ = insn_type_t::insn_sra,
                    _ => return None,
                },
                _ => return None,
            }
        }
        0xd => {
            insn.insn_utype_read(data);
            insn.type_ = insn_type_t::insn_lui;
        }
        0xe => {
            insn.insn_rtype_read(data);
            let funct3 = funct3(data);
            match funct7(data) {
                0x0 => match funct3 {
                    0x0 => insn.type_ = insn_type_t::insn_addw,
                    0x1 => insn.type_ = insn_type_t::insn_sllw,
                    0x5 => insn.type_ = insn_type_t::insn_srlw,
                    _ => return None,
                },
                0x1 => match funct3 {
                    0x0 => insn.type_ = insn_type_t::insn_mulw,
                    0x4 => insn.type_ = insn_type_t::insn_divw,
                    0x5 => insn.type_ = insn_type_t::insn_divuw,
                    0x6 => insn.type_ = insn_type_t::insn_remw,
                    0x7 => insn.type_ = insn_type_t::insn_remuw,
                    _ => return None,
                },
                0x20 => match funct3 {
                    0x0 => insn.type_ = insn_type_t::insn_subw,
                    0x5 => insn.type_ = insn_type_t::insn_sraw,
                    _ => return None,
                },
                _ => return None,
            }
        }
        0x10 => {
            insn.insn_fprtype_read(data);
            match funct2(data) {
                0x0 => insn.type_ = insn_type_t::insn_fmadd_s,
                0x1 => insn.type_ = insn_type_t::insn_fmadd_d,
                _ => return None,
            }
        }
        0x11 => {
            insn.insn_fprtype_read(data);
            match funct2(data) {
                0x0 => insn.type_ = insn_type_t::insn_fmsub_s,
                0x1 => insn.type_ = insn_type_t::insn_fmsub_d,
                _ => return None,
            }
        }
        0x12 => {
            insn.insn_fprtype_read(data);
            match funct2(data) {
                0x0 => insn.type_ = insn_type_t::insn_fnmsub_s,
                0x1 => insn.type_ = insn_type_t::insn_fnmsub_d,
                _ => return None,
            }
        }
        0x13 => {
            insn.insn_fprtype_read(data);
            match funct2(data) {
                0x0 => insn.type_ = insn_type_t::insn_fnmadd_s,
                0x1 => insn.type_ = insn_type_t::insn_fnmadd_d,
                _ => return None,
            }
        }
        0x14 => {
            insn.insn_rtype_read(data);
            match funct7(data) {
                0x0 => insn.type_ = insn_type_t::insn_fadd_s,
                0x1 => insn.type_ = insn_type_t::insn_fadd_d,
                0x4 => insn.type_ = insn_type_t::insn_fsub_s,
                0x5 => insn.type_ = insn_type_t::insn_fsub_d,
                0x8 => insn.type_ = insn_type_t::insn_fmul_s,
                0x9 => insn.type_ = insn_type_t::insn_fmul_d,
                0xc => insn.type_ = insn_type_t::insn_fdiv_s,
                0xd => insn.type_ = insn_type_t::insn_fdiv_d,
                0x10 => match funct3(data) {
                    0x0 => insn.type_ = insn_type_t::insn_fsgnj_s,
                    0x1 => insn.type_ = insn_type_t::insn_fsgnjn_s,
                    0x2 => insn.type_ = insn_type_t::insn_fsgnjx_s,
                    _ => return None,
                },
                0x11 => match funct3(data) {
                    0x0 => insn.type_ = insn_type_t::insn_fsgnj_d,
                    0x1 => insn.type_ = insn_type_t::insn_fsgnjn_d,
                    0x2 => insn.type_ = insn_type_t::insn_fsgnjx_d,
                    _ => return None,
                },
                0x14 => match funct3(data) {
                    0x0 => insn.type_ = insn_type_t::insn_fmin_s,
                    0x1 => insn.type_ = insn_type_t::insn_fmax_s,
                    _ => return None,
                },
                0x15 => match funct3(data) {
                    0x0 => insn.type_ = insn_type_t::insn_fmin_d,
                    0x1 => insn.type_ = insn_type_t::insn_fmax_d,
                    _ => return None,
                },
                0x20 => {
                    if !(rs2(data) == 1) {
                        return None;
                    }
                    insn.type_ = insn_type_t::insn_fcvt_s_d;
                }
                0x21 => {
                    if !(rs2(data) == 0) {
                        return None;
                    }
                    insn.type_ = insn_type_t::insn_fcvt_d_s;
                }
                0x2c => {
                    if !(insn.rs2 == 0) {
                        return None;
                    }
                    insn.type_ = insn_type_t::insn_fsqrt_s;
                }
                0x2d => {
                    if !(insn.rs2 == 0) {
                        return None;
                    }
                    insn.type_ = insn_type_t::insn_fsqrt_d;
                }
                0x50 => match funct3(data) {
                    0x0 => insn.type_ = insn_type_t::insn_fle_s,
                    0x1 => insn.type_ = insn_type_t::insn_flt_s,
                    0x2 => insn.type_ = insn_type_t::insn_feq_s,
                    _ => return None,
                },
                0x51 => match funct3(data) {
                    0x0 => insn.type_ = insn_type_t::insn_fle_d,
                    0x1 => insn.type_ = insn_type_t::insn_flt_d,
                    0x2 => insn.type_ = insn_type_t::insn_feq_d,
                    _ => return None,
                },
                0x60 => match rs2(data) {
                    0x0 => insn.type_ = insn_type_t::insn_fcvt_w_s,
                    0x1 => insn.type_ = insn_type_t::insn_fcvt_wu_s,
                    0x2 => insn.type_ = insn_type_t::insn_fcvt_l_s,
                    0x3 => insn.type_ = insn_type_t::insn_fcvt_lu_s,
                    _ => return None,
                },
                0x61 => match rs2(data) {
                    0x0 => insn.type_ = insn_type_t::insn_fcvt_w_d,
                    0x1 => insn.type_ = insn_type_t::insn_fcvt_wu_d,
                    0x2 => insn.type_ = insn_type_t::insn_fcvt_l_d,
                    0x3 => insn.type_ = insn_type_t::insn_fcvt_lu_d,
                    _ => return None,
                },
                0x68 => match rs2(data) {
                    0x0 => insn.type_ = insn_type_t::insn_fcvt_s_w,
                    0x1 => insn.type_ = insn_type_t::insn_fcvt_s_wu,
                    0x2 => insn.type_ = insn_type_t::insn_fcvt_s_l,
                    0x3 => insn.type_ = insn_type_t::insn_fcvt_s_lu,
                    _ => return None,
                },
                0x69 => match rs2(data) {
                    0x0 => insn.type_ = insn_type_t::insn_fcvt_d_w,
                    0x1 => insn.type_ = insn_type_t::insn_fcvt_d_wu,
                    0x2 => insn.type_ = insn_type_t::insn_fcvt_d_l,
                    0x3 => insn.type_ = insn_type_t::insn_fcvt_d_lu,
                    _ => return None,
                },
                0x70 => {
                    if rs2(data) != 0 {
                        return None;
                    }
                    match funct3(data) {
                        0x0 => insn.type_ = insn_type_t::insn_fmv_x_w,
                        0x1 => insn.type_ = insn_type_t::insn_fclass_s,
                        _ => return None,
                    }
                }
                0x71 => {
                    if rs2(data) != 0 {
                        return None;
                    }
                    match funct3(data) {
                        0x0 => insn.type_ = insn_type_t::insn_fmv_x_d,
                        0x1 => insn.type_ = insn_type_t::insn_fclass_d,
                        _ => return None,
                    }
                }
                0x78 => {
                    if !(rs2(data) == 0 && funct3(data) == 0) {
                        return None;
                    }
                    insn.type_ = insn_type_t::insn_fmv_w_x;
                }
                0x79 => {
                    if !(rs2(data) == 0 && funct3(data) == 0) {
                        return None;
                    }
                    insn.type_ = insn_type_t::insn_fmv_d_x;
                }
                _ => return None,
            }
        }
        0x18 => {
            insn.insn_btype_read(data);
            match funct3(data) {
                0x0 => insn.type_ = insn_type_t::insn_beq,
                0x1 => insn.type_ = insn_type_t::insn_bne,
                0x4 => insn.type_ = insn_type_t::insn_blt,
                0x5 => insn.type_ = insn_type_t::insn_bge,
                0x6 => insn.type_ = insn_type_t::insn_bltu,
                0x7 => insn.type_ = insn_type_t::insn_bgeu,
                _ => return None,
            }
        }
        0x19 => {
            insn.insn_itype_read(data);
            insn.type_ = insn_type_t::insn_jalr;
            insn.cont = true;
        }
        0x1b => {
            insn.insn_jtype_read(data);
            insn.type_ = insn_type_t::insn_jal;
            insn.cont = true;
        }
        0x1c => {
            if data == 0x73 {
                insn.type_ = insn_type_t::insn_ecall;
                insn.cont = true;
            } else {
                insn.insn_csrtype_read(data);
                match funct3(data) {
                    0x1 => insn.type_ = insn_type_t::insn_csrrw,
                    0x2 => insn.type_ = insn_type_t::insn_csrrs,
                    0x3 => insn.type_ = insn_type_t::insn_csrrc,
                    0x5 => insn.type_ = insn_type_t::insn_csrrwi,
                    0x6 => insn.type_ = insn_type_t::insn_csrrsi,
                    0x7 => insn.type_ = insn_type_t::insn_csrrci,
                    _ => return None,
                }
            }
        }
        _ => return None,
    }
    Some(insn)
}

/// Decodes a two-byte encoding of quadrant 0. Returns `None` for the
/// reserved opcode and for an address of a stack slot with offset zero.
pub fn decode_compressed0(data: u16) -> (r: Option<insn_t>)
    ensures
        r == decode_q0(data),
{
    let mut insn = insn_t::default();
    match copcode(data) {
        0x0 => {
            insn.insn_ciwtype_read(data);
            insn.rs1 = 2;
            insn.type_ = insn_type_t::insn_addi;
            if insn.imm == 0 {
                return None;
            }
        }
        0x1 => {
            insn.insn_cltype_read2(data);
            insn.type_ = insn_type_t::insn_fld;
        }
        0x2 => {
            insn.insn_cltype_read(data);
            insn.type_ = insn_type_t::insn_lw;
        }
        0x3 => {
            insn.insn_cltype_read2(data);
            insn.type_ = insn_type_t::insn_ld;
        }
        0x5 => {
            insn.insn_cstype_read(data);
            insn.type_ = insn_type_t::insn_fsd;
        }
        0x6 => {
            insn.insn_cstype_read2(data);
            insn.type_ = insn_type_t::insn_sw;
        }
        0x7 => {
            insn.insn_cstype_read(data);
            insn.type_ = insn_type_t::insn_sd;
        }
        _ => return None,
    }
    Some(insn)
}

/// Decodes a two-byte encoding of quadrant 1. Returns `None` where a field
/// that must not be zero is zero, and for the reserved register operations.
pub fn decode_compressed1(data: u16) -> (r: Option<insn_t>)
    ensures
        r == decode_q1(data),
{
    let mut insn = insn_t::default();
    match copcode(data) {
        0x0 => {
            insn.insn_citype_read(data);
            insn.rs1 = insn.rd;
            insn.type_ = insn_type_t::insn_addi;
        }
        0x1 => {
            insn.insn_citype_read(data);
            if insn.rd == 0 {
                return None;
            }
            insn.rs1 = insn.rd;
            insn.type_ = insn_type_t::insn_addiw;
        }
        0x2 => {
            insn.insn_citype_read(data);
            insn.rs1 = 0;
            insn.type_ = insn_type_t::insn_addi;
        }
        0x3 => {
            let rd = rc1(data);
            if rd == 2 {
                insn.insn_citype_read3(data);
                if insn.imm == 0 {
                    return None;
                }
                insn.rs1 = insn.rd;
                insn.type_ = insn_type_t::insn_addi;
            } else {
                insn.insn_citype_read5(data);
                if insn.imm == 0 {
                    return None;
                }
                insn.type_ = insn_type_t::insn_lui;
            }
        }
        0x4 => {
            match cfunct2high(data) {
                0x0 => {
                    insn.insn_cbtype_read2(data);
                    insn.rs1 = insn.rd;
                    insn.type_ = insn_type_t::insn_srli;
                }
                0x1 => {
                    insn.insn_cbtype_read2(data);
                    insn.rs1 = insn.rd;
                    insn.type_ = insn_type_t::insn_srai;
                }
                0x2 => {
                    insn.insn_cbtype_read2(data);
                    insn.rs1 = insn.rd;
                    insn.type_ = insn_type_t::insn_andi;
                }
                _ => {
                    let cfunct2low = cfunct2low(data);
                    insn.insn_catype_read(data);
                    insn.rs1 = insn.rd;
                    if cfunct1(data) == 0 {
                        match cfunct2low {
                            0x0 => insn.type_ = insn_type_t::insn_sub,
                            0x1 => insn.type_ = insn_type_t::insn_xor,
                            0x2 => insn.type_ = insn_type_t::insn_or,
                            _ => insn.type_ = insn_type_t::insn_and,
                        }
                    } else {
                        match cfunct2low {
                            0x0 => insn.type_ = insn_type_t::insn_subw,
                            0x1 => insn.type_ = insn_type_t::insn_addw,
                            _ => return None,
                        }
                    }
                }
            }
        }
        0x5 => {
            insn.insn_cjtype_read(data);
            insn.rd = 0;
            insn.type_ = insn_type_t::insn_jal;
            insn.cont = true;
        }
        0x6 => {
            insn.insn_cbtype_read(data);
            insn.rs2 = 0;
            insn.type_ = insn_type_t::insn_beq;
        }
        _ => {
            insn.insn_cbtype_read(data);
            insn.rs2 = 0;
            insn.type_ = insn_type_t::insn_bne;
        }
    }
    Some(insn)
}

/// Decodes a two-byte encoding of quadrant 2. Returns `None` for a load into
/// register 0, for a jump through register 0 and for the breakpoint.
pub fn decode_compressed2(data: u16) -> (r: Option<insn_t>)
    ensures
        r == decode_q2(data),
{
    let mut insn = insn_t::default();
    match copcode(data) {
        0x0 => {
            insn.insn_citype_read(data);
            insn.rs1 = insn.rd;
            insn.type_ = insn_type_t::insn_slli;
        }
        0x1 => {
            insn.insn_citype_read2(data);
            insn.rs1 = 2;
            insn.type_ = insn_type_t::insn_fld;
        }
        0x2 => {
            insn.insn_citype_read4(data);
            if insn.rd == 0 {
                return None;
            }
            insn.rs1 = 2;
            insn.type_ = insn_type_t::insn_lw;
        }
        0x3 => {
            insn.insn_citype_read2(data);
            if insn.rd == 0 {
                return None;
            }
            insn.rs1 = 2;
            insn.type_ = insn_type_t::insn_ld;
        }
        0x4 => {
            insn.insn_crtype_read(data);
            if cfunct1(data) == 0 {
                if insn.rs2 == 0 {
                    if insn.rs1 == 0 {
                        return None;
                    }
                    insn.rd = 0;
                    insn.type_ = insn_type_t::insn_jalr;
                    insn.cont = true;
                } else {
                    insn.rd = insn.rs1;
                    insn.rs1 = 0;
                    insn.type_ = insn_type_t::insn_add;
                }
            } else {
                if insn.rs1 == 0 && insn.rs2 == 0 {
                    return None;
                } else if insn.rs2 == 0 {
                    insn.rd = 1;
                    insn.type_ = insn_type_t::insn_jalr;
                    insn.cont = true;
                } else {
                    insn.rd = insn.rs1;
                    insn.type_ = insn_type_t::insn_add;
                }
            }
        }
        0x5 => {
            insn.insn_csstype_read(data);
            insn.rs1 = 2;
            insn.type_ = insn_type_t::insn_fsd;
        }
        0x6 => {
            insn.insn_csstype_read2(data);
            insn.rs1 = 2;
            insn.type_ = insn_type_t::insn_sw;
        }
        _ => {
            insn.insn_csstype_read(data);
            insn.rs1 = 2;
            insn.type_ = insn_type_t::insn_sd;
        }
    }
    Some(insn)
}

/// Decodes `data`, or returns `None` where no instruction is defined for it.
pub fn insn_try_decode(data: u32) -> (r: Option<insn_t>)
    ensures
        r == decode_spec(data),
        r matches Some(insn) ==> insn.wf() && insn.cont == ends_block(insn.type_),
{
    let half: u16 = #[verifier::truncate] (data as u16);
    let r = match quadrant(data) {
        0x0 => decode_compressed0(half),
        0x1 => decode_compressed1(half),
        0x2 => decode_compressed2(half),
        _ => decode_full(data),
    };
    proof {
        lemma_decoded_wf(data);
    }
    r
}

/// Decodes `data`, for which an instruction must be defined, into `insn`.
/// Nothing of the record's earlier contents is kept.
pub fn insn_decode(insn: &mut insn_t, data: u32)
    requires
        decode_spec(data) is Some,
    ensures
        Some(*final(insn)) == decode_spec(data),
        final(insn).wf(),
{
    match insn_try_decode(data) {
        Some(decoded) => {
            *insn = decoded;
        },
        None => {},
    }
}

/// Every register number of a decoded record is below 32, and the record
/// ends the block exactly if it is a jump or an environment call.
pub proof fn lemma_decoded_wf(data: u32)
    ensures
        decode_spec(data) matches Some(insn) ==> insn.wf() && insn.cont == ends_block(insn.type_),
{
    lemma_word_fields(data);
    lemma_half_fields(data as u16);
}

} // verus!
