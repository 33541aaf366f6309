//! The four-byte encoding of each instruction, and the proof that decoding
//! undoes it.

use crate::decode::{decode_spec, ends_block, format_t, insn_format, spec_quadrant};
use crate::insn::{
    imm_b, imm_i, imm_j, imm_s, imm_u, insn_t, insn_type_t, spec_csr, spec_funct2, spec_funct3,
    spec_funct7, spec_imm116, spec_opcode, spec_rd, spec_rs1, spec_rs2, spec_rs3,
};
use vstd::prelude::*;

verus! {

/// The fields of a four-byte encoding that choose the instruction. For a
/// fused multiply-add `funct7` holds only its low two bits, the precision.
#[derive(Copy, Clone, Debug, PartialEq, Eq, Structural)]
pub struct selector_t {
    pub opcode: u32,
    pub funct3: u32,
    pub funct7: u32,
}

/// The selector fields of each instruction's four-byte encoding.
pub open spec fn insn_selector(t: insn_type_t) -> selector_t {
    match t {
        insn_type_t::insn_lb => selector_t { opcode: 0x0, funct3: 0x0, funct7: 0x0 },
        insn_type_t::insn_lh => selector_t { opcode: 0x0, funct3: 0x1, funct7: 0x0 },
        insn_type_t::insn_lw => selector_t { opcode: 0x0, funct3: 0x2, funct7: 0x0 },
        insn_type_t::insn_ld => selector_t { opcode: 0x0, funct3: 0x3, funct7: 0x0 },
        insn_type_t::insn_lbu => selector_t { opcode: 0x0, funct3: 0x4, funct7: 0x0 },
        insn_type_t::insn_lhu => selector_t { opcode: 0x0, funct3: 0x5, funct7: 0x0 },
        insn_type_t::insn_lwu => selector_t { opcode: 0x0, funct3: 0x6, funct7: 0x0 },
        insn_type_t::insn_flw => selector_t { opcode: 0x1, funct3: 0x2, funct7: 0x0 },
        insn_type_t::insn_fld => selector_t { opcode: 0x1, funct3: 0x3, funct7: 0x0 },
        insn_type_t::insn_fence => selector_t { opcode: 0x3, funct3: 0x0, funct7: 0x0 },
        insn_type_t::insn_fence_i => selector_t { opcode: 0x3, funct3: 0x1, funct7: 0x0 },
        insn_type_t::insn_addi => selector_t { opcode: 0x4, funct3: 0x0, funct7: 0x0 },
        insn_type_t::insn_slli => selector_t { opcode: 0x4, funct3: 0x1, funct7: 0x0 },
        insn_type_t::insn_slti => selector_t { opcode: 0x4, funct3: 0x2, funct7: 0x0 },
        insn_type_t::insn_sltiu => selector_t { opcode: 0x4, funct3: 0x3, funct7: 0x0 },
        insn_type_t::insn_xori => selector_t { opcode: 0x4, funct3: 0x4, funct7: 0x0 },
        insn_type_t::insn_srli => selector_t { opcode: 0x4, funct3: 0x5, funct7: 0x0 },
        insn_type_t::insn_srai => selector_t { opcode: 0x4, funct3: 0x5, funct7: 0x0 },
        insn_type_t::insn_ori => selector_t { opcode: 0x4, funct3: 0x6, funct7: 0x0 },
        insn_type_t::insn_andi => selector_t { opcode: 0x4, funct3: 0x7, funct7: 0x0 },
        insn_type_t::insn_auipc => selector_t { opcode: 0x5, funct3: 0x0, funct7: 0x0 },
        insn_type_t::insn_addiw => selector_t { opcode: 0x6, funct3: 0x0, funct7: 0x0 },
        insn_type_t::insn_slliw => selector_t { opcode: 0x6, funct3: 0x1, funct7: 0x0 },
        insn_type_t::insn_srliw => selector_t { opcode: 0x6, funct3: 0x5, funct7: 0x0 },
        insn_type_t::insn_sraiw => selector_t { opcode: 0x6, funct3: 0x5, funct7: 0x0 },
        insn_type_t::insn_sb => selector_t { opcode: 0x8, funct3: 0x0, funct7: 0x0 },
        insn_type_t::insn_sh => selector_t { opcode: 0x8, funct3: 0x1, funct7: 0x0 },
        insn_type_t::insn_sw => selector_t { opcode: 0x8, funct3: 0x2, funct7: 0x0 },
        insn_type_t::insn_sd => selector_t { opcode: 0x8, funct3: 0x3, funct7: 0x0 },
        insn_type_t::insn_fsw => selector_t { opcode: 0x9, funct3: 0x2, funct7: 0x0 },
        insn_type_t::insn_fsd => selector_t { opcode: 0x9, funct3: 0x3, funct7: 0x0 },
        insn_type_t::insn_add => selector_t { opcode: 0xc, funct3: 0x0, funct7: 0x0 },
        insn_type_t::insn_sll => selector_t { opcode: 0xc, funct3: 0x1, funct7: 0x0 },
        insn_type_t::insn_slt => selector_t { opcode: 0xc, funct3: 0x2, funct7: 0x0 },
        insn_type_t::insn_sltu => selector_t { opcode: 0xc, funct3: 0x3, funct7: 0x0 },
        insn_type_t::insn_xor => selector_t { opcode: 0xc, funct3: 0x4, funct7: 0x0 },
        insn_type_t::insn_srl => selector_t { opcode: 0xc, funct3: 0x5, funct7: 0x0 },
        insn_type_t::insn_or => selector_t { opcode: 0xc, funct3: 0x6, funct7: 0x0 },
        insn_type_t::insn_and => selector_t { opcode: 0xc, funct3: 0x7, funct7: 0x0 },
        insn_type_t::insn_mul => selector_t { opcode: 0xc, funct3: 0x0, funct7: 0x1 },
        insn_type_t::insn_mulh => selector_t { opcode: 0xc, funct3: 0x1, funct7: 0x1 },
        insn_type_t::insn_mulhsu => selector_t { opcode: 0xc, funct3: 0x2, funct7: 0x1 },
        insn_type_t::insn_mulhu => selector_t { opcode: 0xc, funct3: 0x3, funct7: 0x1 },
        insn_type_t::insn_div => selector_t { opcode: 0xc, funct3: 0x4, funct7: 0x1 },
        insn_type_t::insn_divu => selector_t { opcode: 0xc, funct3: 0x5, funct7: 0x1 },
        insn_type_t::insn_rem => selector_t { opcode: 0xc, funct3: 0x6, funct7: 0x1 },
        insn_type_t::insn_remu => selector_t { opcode: 0xc, funct3: 0x7, funct7: 0x1 },
        insn_type_t::insn_sub => selector_t { opcode: 0xc, funct3: 0x0, funct7: 0x20 },
        insn_type_t::insn_sra => selector_t { opcode: 0xc, funct3: 0x5, funct7: 0x20 },
        insn_type_t::insn_lui => selector_t { opcode: 0xd, funct3: 0x0, funct7: 0x0 },
        insn_type_t::insn_addw => selector_t { opcode: 0xe, funct3: 0x0, funct7: 0x0 },
        insn_type_t::insn_sllw => selector_t { opcode: 0xe, funct3: 0x1, funct7: 0x0 },
        insn_type_t::insn_srlw => selector_t { opcode: 0xe, funct3: 0x5, funct7: 0x0 },
        insn_type_t::insn_mulw => selector_t { opcode: 0xe, funct3: 0x0, funct7: 0x1 },
        insn_type_t::insn_divw => selector_t { opcode: 0xe, funct3: 0x4, funct7: 0x1 },
        insn_type_t::insn_divuw => selector_t { opcode: 0xe, funct3: 0x5, funct7: 0x1 },
        insn_type_t::insn_remw => selector_t { opcode: 0xe, funct3: 0x6, funct7: 0x1 },
        insn_type_t::insn_remuw => selector_t { opcode: 0xe, funct3: 0x7, funct7: 0x1 },
        insn_type_t::insn_subw => selector_t { opcode: 0xe, funct3: 0x0, funct7: 0x20 },
        insn_type_t::insn_sraw => selector_t { opcode: 0xe, funct3: 0x5, funct7: 0x20 },
        insn_type_t::insn_fmadd_s => selector_t { opcode: 0x10, funct3: 0x0, funct7: 0x0 },
        insn_type_t::insn_fmadd_d => selector_t { opcode: 0x10, funct3: 0x0, funct7: 0x1 },
        insn_type_t::insn_fmsub_s => selector_t { opcode: 0x11, funct3: 0x0, funct7: 0x0 },
        insn_type_t::insn_fmsub_d => selector_t { opcode: 0x11, funct3: 0x0, funct7: 0x1 },
        insn_type_t::insn_fnmsub_s => selector_t { opcode: 0x12, funct3: 0x0, funct7: 0x0 },
        insn_type_t::insn_fnmsub_d => selector_t { opcode: 0x12, funct3: 0x0, funct7: 0x1 },
        insn_type_t::insn_fnmadd_s => selector_t { opcode: 0x13, funct3: 0x0, funct7: 0x0 },
        insn_type_t::insn_fnmadd_d => selector_t { opcode: 0x13, funct3: 0x0, funct7: 0x1 },
        insn_type_t::insn_fadd_s => selector_t { opcode: 0x14, funct3: 0x0, funct7: 0x0 },
        insn_type_t::insn_fadd_d => selector_t { opcode: 0x14, funct3: 0x0, funct7: 0x1 },
        insn_type_t::insn_fsub_s => selector_t { opcode: 0x14, funct3: 0x0, funct7: 0x4 },
        insn_type_t::insn_fsub_d => selector_t { opcode: 0x14, funct3: 0x0, funct7: 0x5 },
        insn_type_t::insn_fmul_s => selector_t { opcode: 0x14, funct3: 0x0, funct7: 0x8 },
        insn_type_t::insn_fmul_d => selector_t { opcode: 0x14, funct3: 0x0, funct7: 0x9 },
        insn_type_t::insn_fdiv_s => selector_t { opcode: 0x14, funct3: 0x0, funct7: 0xc },
        insn_type_t::insn_fdiv_d => selector_t { opcode: 0x14, funct3: 0x0, funct7: 0xd },
        insn_type_t::insn_fsgnj_s => selector_t { opcode: 0x14, funct3: 0x0, funct7: 0x10 },
        insn_type_t::insn_fsgnjn_s => selector_t { opcode: 0x14, funct3: 0x1, funct7: 0x10 },
        insn_type_t::insn_fsgnjx_s => selector_t { opcode: 0x14, funct3: 0x2, funct7: 0x10 },
        insn_type_t::insn_fsgnj_d => selector_t { opcode: 0x14, funct3: 0x0, funct7: 0x11 },
        insn_type_t::insn_fsgnjn_d => selector_t { opcode: 0x14, funct3: 0x1, funct7: 0x11 },
        insn_type_t::insn_fsgnjx_d => selector_t { opcode: 0x14, funct3: 0x2, funct7: 0x11 },
        insn_type_t::insn_fmin_s => selector_t { opcode: 0x14, funct3: 0x0, funct7: 0x14 },
        insn_type_t::insn_fmax_s => selector_t { opcode: 0x14, funct3: 0x1, funct7: 0x14 },
        insn_type_t::insn_fmin_d => selector_t { opcode: 0x14, funct3: 0x0, funct7: 0x15 },
        insn_type_t::insn_fmax_d => selector_t { opcode: 0x14, funct3: 0x1, funct7: 0x15 },
        insn_type_t::insn_fle_s => selector_t { opcode: 0x14, funct3: 0x0, funct7: 0x50 },
        insn_type_t::insn_flt_s => selector_t { opcode: 0x14, funct3: 0x1, funct7: 0x50 },
        insn_type_t::insn_feq_s => selector_t { opcode: 0x14, funct3: 0x2, funct7: 0x50 },
        insn_type_t::insn_fle_d => selector_t { opcode: 0x14, funct3: 0x0, funct7: 0x51 },
        insn_type_t::insn_flt_d => selector_t { opcode: 0x14, funct3: 0x1, funct7: 0x51 },
        insn_type_t::insn_feq_d => selector_t { opcode: 0x14, funct3: 0x2, funct7: 0x51 },
        insn_type_t::insn_fcvt_s_d => selector_t { opcode: 0x14, funct3: 0x0, funct7: 0x20 },
        insn_type_t::insn_fcvt_d_s => selector_t { opcode: 0x14, funct3: 0x0, funct7: 0x21 },
        insn_type_t::insn_fsqrt_s => selector_t { opcode: 0x14, funct3: 0x0, funct7: 0x2c },
        insn_type_t::insn_fsqrt_d => selector_t { opcode: 0x14, funct3: 0x0, funct7: 0x2d },
        insn_type_t::insn_fmv_w_x => selector_t { opcode: 0x14, funct3: 0x0, funct7: 0x78 },
        insn_type_t::insn_fmv_d_x => selector_t { opcode: 0x14, funct3: 0x0, funct7: 0x79 },
        insn_type_t::insn_fcvt_w_s => selector_t { opcode: 0x14, funct3: 0x0, funct7: 0x60 },
        insn_type_t::insn_fcvt_wu_s => selector_t { opcode: 0x14, funct3: 0x0, funct7: 0x60 },
        insn_type_t::insn_fcvt_l_s => selector_t { opcode: 0x14, funct3: 0x0, funct7: 0x60 },
        insn_type_t::insn_fcvt_lu_s => selector_t { opcode: 0x14, funct3: 0x0, funct7: 0x60 },
        insn_type_t::insn_fcvt_w_d => selector_t { opcode: 0x14, funct3: 0x0, funct7: 0x61 },
        insn_type_t::insn_fcvt_wu_d => selector_t { opcode: 0x14, funct3: 0x0, funct7: 0x61 },
        insn_type_t::insn_fcvt_l_d => selector_t { opcode: 0x14, funct3: 0x0, funct7: 0x61 },
        insn_type_t::insn_fcvt_lu_d => selector_t { opcode: 0x14, funct3: 0x0, funct7: 0x61 },
        insn_type_t::insn_fcvt_s_w => selector_t { opcode: 0x14, funct3: 0x0, funct7: 0x68 },
        insn_type_t::insn_fcvt_s_wu => selector_t { opcode: 0x14, funct3: 0x0, funct7: 0x68 },
        insn_type_t::insn_fcvt_s_l => selector_t { opcode: 0x14, funct3: 0x0, funct7: 0x68 },
        insn_type_t::insn_fcvt_s_lu => selector_t { opcode: 0x14, funct3: 0x0, funct7: 0x68 },
        insn_type_t::insn_fcvt_d_w => selector_t { opcode: 0x14, funct3: 0x0, funct7: 0x69 },
        insn_type_t::insn_fcvt_d_wu => selector_t { opcode: 0x14, funct3: 0x0, funct7: 0x69 },
        insn_type_t::insn_fcvt_d_l => selector_t { opcode: 0x14, funct3: 0x0, funct7: 0x69 },
        insn_type_t::insn_fcvt_d_lu => selector_t { opcode: 0x14, funct3: 0x0, funct7: 0x69 },
        insn_type_t::insn_fmv_x_w => selector_t { opcode: 0x14, funct3: 0x0, funct7: 0x70 },
        insn_type_t::insn_fclass_s => selector_t { opcode: 0x14, funct3: 0x1, funct7: 0x70 },
        insn_type_t::insn_fmv_x_d => selector_t { opcode: 0x14, funct3: 0x0, funct7: 0x71 },
        insn_type_t::insn_fclass_d => selector_t { opcode: 0x14, funct3: 0x1, funct7: 0x71 },
        insn_type_t::insn_beq => selector_t { opcode: 0x18, funct3: 0x0, funct7: 0x0 },
        insn_type_t::insn_bne => selector_t { opcode: 0x18, funct3: 0x1, funct7: 0x0 },
        insn_type_t::insn_blt => selector_t { opcode: 0x18, funct3: 0x4, funct7: 0x0 },
        insn_type_t::insn_bge => selector_t { opcode: 0x18, funct3: 0x5, funct7: 0x0 },
        insn_type_t::insn_bltu => selector_t { opcode: 0x18, funct3: 0x6, funct7: 0x0 },
        insn_type_t::insn_bgeu => selector_t { opcode: 0x18, funct3: 0x7, funct7: 0x0 },
        insn_type_t::insn_jalr => selector_t { opcode: 0x19, funct3: 0x0, funct7: 0x0 },
        insn_type_t::insn_jal => selector_t { opcode: 0x1b, funct3: 0x0, funct7: 0x0 },
        insn_type_t::insn_ecall => selector_t { opcode: 0x1c, funct3: 0x0, funct7: 0x0 },
        insn_type_t::insn_csrrw => selector_t { opcode: 0x1c, funct3: 0x1, funct7: 0x0 },
        insn_type_t::insn_csrrs => selector_t { opcode: 0x1c, funct3: 0x2, funct7: 0x0 },
        insn_type_t::insn_csrrc => selector_t { opcode: 0x1c, funct3: 0x3, funct7: 0x0 },
        insn_type_t::insn_csrrwi => selector_t { opcode: 0x1c, funct3: 0x5, funct7: 0x0 },
        insn_type_t::insn_csrrsi => selector_t { opcode: 0x1c, funct3: 0x6, funct7: 0x0 },
        insn_type_t::insn_csrrci => selector_t { opcode: 0x1c, funct3: 0x7, funct7: 0x0 },
        insn_type_t::num_insns => selector_t { opcode: 0, funct3: 0, funct7: 0 },
    }
}

/// Where the `rs2` field of an encoding does not name a register but helps
/// to choose the instruction, the value it must have.
pub open spec fn fixed_rs2(t: insn_type_t) -> Option<u8> {
    match t {
        insn_type_t::insn_fcvt_d_s
        | insn_type_t::insn_fsqrt_s
        | insn_type_t::insn_fsqrt_d
        | insn_type_t::insn_fmv_w_x
        | insn_type_t::insn_fmv_d_x
        | insn_type_t::insn_fcvt_w_s
        | insn_type_t::insn_fcvt_w_d
        | insn_type_t::insn_fcvt_s_w
        | insn_type_t::insn_fcvt_d_w
        | insn_type_t::insn_fmv_x_w
        | insn_type_t::insn_fclass_s
        | insn_type_t::insn_fmv_x_d
        | insn_type_t::insn_fclass_d => Some(0u8),
        insn_type_t::insn_fcvt_s_d
        | insn_type_t::insn_fcvt_wu_s
        | insn_type_t::insn_fcvt_wu_d
        | insn_type_t::insn_fcvt_s_wu
        | insn_type_t::insn_fcvt_d_wu => Some(1u8),
        insn_type_t::insn_fcvt_l_s
        | insn_type_t::insn_fcvt_l_d
        | insn_type_t::insn_fcvt_s_l
        | insn_type_t::insn_fcvt_d_l => Some(2u8),
        insn_type_t::insn_fcvt_lu_s
        | insn_type_t::insn_fcvt_lu_d
        | insn_type_t::insn_fcvt_s_lu
        | insn_type_t::insn_fcvt_d_lu => Some(3u8),
        _ => None,
    }
}

/// The bits that every four-byte encoding of an instruction shares: the
/// quadrant, the opcode and `funct3`.
pub open spec fn pack_head(opcode: u32, funct3: u32) -> u32 {
    0x3u32 | (opcode << 2) | (funct3 << 12)
}

pub open spec fn pack_r(opcode: u32, funct3: u32, funct7: u32, rd: u32, rs1: u32, rs2: u32) -> u32 {
    pack_head(opcode, funct3) | (funct7 << 25) | (rd << 7) | (rs1 << 15) | (rs2 << 20)
}

pub open spec fn pack_r4(opcode: u32, funct2: u32, rd: u32, rs1: u32, rs2: u32, rs3: u32) -> u32 {
    pack_head(opcode, 0) | (funct2 << 25) | (rs3 << 27) | (rd << 7) | (rs1 << 15) | (rs2 << 20)
}

pub open spec fn pack_i(opcode: u32, funct3: u32, rd: u32, rs1: u32, imm: i32) -> u32 {
    pack_head(opcode, funct3) | (rd << 7) | (rs1 << 15) | (((imm as u32) & 0xfff) << 20)
}

pub open spec fn pack_s(opcode: u32, funct3: u32, rs1: u32, rs2: u32, imm: i32) -> u32 {
    pack_head(opcode, funct3) | (rs1 << 15) | (rs2 << 20) | (((imm as u32) & 0x1f) << 7) | ((((imm as u32)
        >> 5) & 0x7f) << 25)
}

pub open spec fn pack_b(opcode: u32, funct3: u32, rs1: u32, rs2: u32, imm: i32) -> u32 {
    pack_head(opcode, funct3) | (rs1 << 15) | (rs2 << 20) | ((((imm as u32) >> 1) & 0xf) << 8) | ((((imm as u32)
        >> 5) & 0x3f) << 25) | ((((imm as u32) >> 11) & 0x1) << 7) | ((((imm as u32) >> 12) & 0x1) << 31)
}

pub open spec fn pack_u(opcode: u32, rd: u32, imm: i32) -> u32 {
    pack_head(opcode, 0) | (rd << 7) | ((imm as u32) & 0xfffff000)
}

pub open spec fn pack_j(opcode: u32, rd: u32, imm: i32) -> u32 {
    pack_head(opcode, 0) | (rd << 7) | ((((imm as u32) >> 1) & 0x3ff) << 21) | ((((imm as u32) >> 11) & 0x1)
        << 20) | ((((imm as u32) >> 12) & 0xff) << 12) | ((((imm as u32) >> 20) & 0x1) << 31)
}

pub open spec fn pack_csr(opcode: u32, funct3: u32, rd: u32, rs1: u32, csr: u16) -> u32 {
    pack_head(opcode, funct3) | (rd << 7) | (rs1 << 15) | ((csr as u32) << 20)
}

/// The four-byte encoding of a record: the selector fields of its
/// instruction, and its operands where the instruction's layout puts them.
pub open spec fn encode_spec(r: insn_t) -> u32 {
    let s = insn_selector(r.type_);
    let rd = r.rd as u32;
    let rs1 = r.rs1 as u32;
    let rs2 = r.rs2 as u32;
    let rs3 = r.rs3 as u32;
    match insn_format(r.type_) {
        format_t::r => pack_r(s.opcode, s.funct3, s.funct7, rd, rs1, rs2),
        format_t::i => pack_i(s.opcode, s.funct3, rd, rs1, r.imm),
        format_t::s => pack_s(s.opcode, s.funct3, rs1, rs2, r.imm),
        format_t::b => pack_b(s.opcode, s.funct3, rs1, rs2, r.imm),
        format_t::u => pack_u(s.opcode, rd, r.imm),
        format_t::j => pack_j(s.opcode, rd, r.imm),
        format_t::csr => pack_csr(s.opcode, s.funct3, rd, rs1, r.csr),
        format_t::r4 => pack_r4(s.opcode, s.funct7, rd, rs1, rs2, rs3),
        format_t::bare => pack_head(s.opcode, s.funct3),
    }
}

/// The range of the immediate of an instruction laid out with a 12-bit
/// immediate. A shift holds its amount there, and an arithmetic shift has
/// bit 10 set above it.
pub open spec fn imm_fits_i(t: insn_type_t, imm: i32) -> bool {
    match t {
        insn_type_t::insn_slli | insn_type_t::insn_srli => 0 <= imm < 64,
        insn_type_t::insn_srai => 1024 <= imm < 1088,
        insn_type_t::insn_slliw | insn_type_t::insn_srliw => 0 <= imm < 32,
        insn_type_t::insn_sraiw => 1024 <= imm < 1056,
        _ => -2048 <= imm < 2048,
    }
}

/// `r` with every operand cleared that the layout `f` has no place for.
pub open spec fn keep_operands(f: format_t, r: insn_t) -> insn_t {
    let z = insn_t { type_: r.type_, cont: r.cont, rvc: r.rvc, ..insn_t::blank() };
    match f {
        format_t::r => insn_t { rs1: r.rs1, rs2: r.rs2, rd: r.rd, ..z },
        format_t::i => insn_t { imm: r.imm, rs1: r.rs1, rd: r.rd, ..z },
        format_t::s => insn_t { imm: r.imm, rs1: r.rs1, rs2: r.rs2, ..z },
        format_t::b => insn_t { imm: r.imm, rs1: r.rs1, rs2: r.rs2, ..z },
        format_t::u => insn_t { imm: r.imm, rd: r.rd, ..z },
        format_t::j => insn_t { imm: r.imm, rd: r.rd, ..z },
        format_t::csr => insn_t { csr: r.csr, rs1: r.rs1, rd: r.rd, ..z },
        format_t::r4 => insn_t { rs1: r.rs1, rs2: r.rs2, rs3: r.rs3, rd: r.rd, ..z },
        format_t::bare => z,
    }
}

/// The records that a four-byte encoding can stand for: an instruction is
/// chosen, the register numbers are below 32, the immediate is one that the
/// instruction's layout can hold, and nothing is set that the layout has no
/// place for.
pub open spec fn encodable(r: insn_t) -> bool {
    let f = insn_format(r.type_);
    &&& r.type_ != insn_type_t::num_insns
    &&& r.wf()
    &&& !r.rvc
    &&& r.cont == ends_block(r.type_)
    &&& r == keep_operands(f, r)
    &&& f == format_t::i ==> imm_fits_i(r.type_, r.imm)
    &&& f == format_t::s ==> -2048 <= r.imm < 2048
    &&& f == format_t::b ==> -4096 <= r.imm < 4096 && r.imm % 2 == 0
    &&& f == format_t::j ==> -0x10_0000 <= r.imm < 0x10_0000 && r.imm % 2 == 0
    &&& f == format_t::u ==> r.imm % 4096 == 0
    &&& f == format_t::csr ==> r.csr < 4096
    &&& fixed_rs2(r.type_) matches Some(v) ==> r.rs2 == v
}

proof fn lemma_fields_r(opcode: u32, funct3: u32, funct7: u32, rd: u32, rs1: u32, rs2: u32)
    by (bit_vector)
    requires
        opcode < 32,
        funct3 < 8,
        funct7 < 128,
        rd < 32,
        rs1 < 32,
        rs2 < 32,
    ensures
        spec_quadrant(pack_r(opcode, funct3, funct7, rd, rs1, rs2)) == 3,
        spec_opcode(pack_r(opcode, funct3, funct7, rd, rs1, rs2)) == opcode,
        spec_funct3(pack_r(opcode, funct3, funct7, rd, rs1, rs2)) == funct3,
        spec_funct7(pack_r(opcode, funct3, funct7, rd, rs1, rs2)) == funct7,
        spec_rd(pack_r(opcode, funct3, funct7, rd, rs1, rs2)) == rd,
        spec_rs1(pack_r(opcode, funct3, funct7, rd, rs1, rs2)) == rs1,
        spec_rs2(pack_r(opcode, funct3, funct7, rd, rs1, rs2)) == rs2,
{
}

proof fn lemma_fields_r4(opcode: u32, funct2: u32, rd: u32, rs1: u32, rs2: u32, rs3: u32)
    by (bit_vector)
    requires
        opcode < 32,
        funct2 < 4,
        rd < 32,
        rs1 < 32,
        rs2 < 32,
        rs3 < 32,
    ensures
        spec_quadrant(pack_r4(opcode, funct2, rd, rs1, rs2, rs3)) == 3,
        spec_opcode(pack_r4(opcode, funct2, rd, rs1, rs2, rs3)) == opcode,
        spec_funct2(pack_r4(opcode, funct2, rd, rs1, rs2, rs3)) == funct2,
        spec_rd(pack_r4(opcode, funct2, rd, rs1, rs2, rs3)) == rd,
        spec_rs1(pack_r4(opcode, funct2, rd, rs1, rs2, rs3)) == rs1,
        spec_rs2(pack_r4(opcode, funct2, rd, rs1, rs2, rs3)) == rs2,
        spec_rs3(pack_r4(opcode, funct2, rd, rs1, rs2, rs3)) == rs3,
{
}

proof fn lemma_fields_i(opcode: u32, funct3: u32, rd: u32, rs1: u32, imm: i32)
    by (bit_vector)
    requires
        opcode < 32,
        funct3 < 8,
        rd < 32,
        rs1 < 32,
        -2048 <= imm < 2048,
    ensures
        spec_quadrant(pack_i(opcode, funct3, rd, rs1, imm)) == 3,
        spec_opcode(pack_i(opcode, funct3, rd, rs1, imm)) == opcode,
        spec_funct3(pack_i(opcode, funct3, rd, rs1, imm)) == funct3,
        spec_rd(pack_i(opcode, funct3, rd, rs1, imm)) == rd,
        spec_rs1(pack_i(opcode, funct3, rd, rs1, imm)) == rs1,
        imm_i(pack_i(opcode, funct3, rd, rs1, imm)) == imm,
        0 <= imm < 64 ==> spec_imm116(pack_i(opcode, funct3, rd, rs1, imm)) == 0,
        1024 <= imm < 1088 ==> spec_imm116(pack_i(opcode, funct3, rd, rs1, imm)) == 0x10,
        0 <= imm < 32 ==> spec_funct7(pack_i(opcode, funct3, rd, rs1, imm)) == 0,
        1024 <= imm < 1056 ==> spec_funct7(pack_i(opcode, funct3, rd, rs1, imm)) == 0x20,
{
}

proof fn lemma_fields_s(opcode: u32, funct3: u32, rs1: u32, rs2: u32, imm: i32)
    by (bit_vector)
    requires
        opcode < 32,
        funct3 < 8,
        rs1 < 32,
        rs2 < 32,
        -2048 <= imm < 2048,
    ensures
        spec_quadrant(pack_s(opcode, funct3, rs1, rs2, imm)) == 3,
        spec_opcode(pack_s(opcode, funct3, rs1, rs2, imm)) == opcode,
        spec_funct3(pack_s(opcode, funct3, rs1, rs2, imm)) == funct3,
        spec_rs1(pack_s(opcode, funct3, rs1, rs2, imm)) == rs1,
        spec_rs2(pack_s(opcode, funct3, rs1, rs2, imm)) == rs2,
        imm_s(pack_s(opcode, funct3, rs1, rs2, imm)) == imm,
{
}

proof fn lemma_fields_b(opcode: u32, funct3: u32, rs1: u32, rs2: u32, imm: i32)
    by (bit_vector)
    requires
        opcode < 32,
        funct3 < 8,
        rs1 < 32,
        rs2 < 32,
        -4096 <= imm < 4096,
        imm & 1 == 0,
    ensures
        spec_quadrant(pack_b(opcode, funct3, rs1, rs2, imm)) == 3,
        spec_opcode(pack_b(opcode, funct3, rs1, rs2, imm)) == opcode,
        spec_funct3(pack_b(opcode, funct3, rs1, rs2, imm)) == funct3,
        spec_rs1(pack_b(opcode, funct3, rs1, rs2, imm)) == rs1,
        spec_rs2(pack_b(opcode, funct3, rs1, rs2, imm)) == rs2,
        imm_b(pack_b(opcode, funct3, rs1, rs2, imm)) == imm,
{
}

proof fn lemma_fields_u(opcode: u32, rd: u32, imm: i32)
    by (bit_vector)
    requires
        opcode < 32,
        rd < 32,
        imm & 0xfff == 0,
    ensures
        spec_quadrant(pack_u(opcode, rd, imm)) == 3,
        spec_opcode(pack_u(opcode, rd, imm)) == opcode,
        spec_rd(pack_u(opcode, rd, imm)) == rd,
        imm_u(pack_u(opcode, rd, imm)) == imm,
{
}

proof fn lemma_fields_j(opcode: u32, rd: u32, imm: i32)
    by (bit_vector)
    requires
        opcode < 32,
        rd < 32,
        -0x10_0000 <= imm < 0x10_0000,
        imm & 1 == 0,
    ensures
        spec_quadrant(pack_j(opcode, rd, imm)) == 3,
        spec_opcode(pack_j(opcode, rd, imm)) == opcode,
        spec_rd(pack_j(opcode, rd, imm)) == rd,
        imm_j(pack_j(opcode, rd, imm)) == imm,
{
}

proof fn lemma_fields_csr(opcode: u32, funct3: u32, rd: u32, rs1: u32, csr: u16)
    by (bit_vector)
    requires
        opcode < 32,
        funct3 < 8,
        rd < 32,
        rs1 < 32,
        csr < 4096,
    ensures
        spec_quadrant(pack_csr(opcode, funct3, rd, rs1, csr)) == 3,
        spec_opcode(pack_csr(opcode, funct3, rd, rs1, csr)) == opcode,
        spec_funct3(pack_csr(opcode, funct3, rd, rs1, csr)) == funct3,
        spec_rd(pack_csr(opcode, funct3, rd, rs1, csr)) == rd,
        spec_rs1(pack_csr(opcode, funct3, rd, rs1, csr)) == rs1,
        spec_csr(pack_csr(opcode, funct3, rd, rs1, csr)) == csr,
        funct3 != 0 ==> pack_csr(opcode, funct3, rd, rs1, csr) != 0x73,
{
}

proof fn lemma_fields_bare(opcode: u32, funct3: u32)
    by (bit_vector)
    requires
        opcode < 32,
        funct3 < 8,
    ensures
        spec_quadrant(pack_head(opcode, funct3)) == 3,
        spec_opcode(pack_head(opcode, funct3)) == opcode,
        spec_funct3(pack_head(opcode, funct3)) == funct3,
        opcode == 0x1c && funct3 == 0 ==> pack_head(opcode, funct3) == 0x73,
{
}

proof fn lemma_even(imm: i32)
    by (bit_vector)
    ensures
        imm % 2 == 0 <==> imm & 1 == 0,
        imm % 4096 == 0 <==> imm & 0xfff == 0,
{
}

#[verifier::rlimit(40)]
proof fn lemma_round_trip(r: insn_t, f: format_t)
    requires
        encodable(r),
        f == insn_format(r.type_),
    ensures
        decode_spec(encode_spec(r)) == Some(r),
{
    let s = insn_selector(r.type_);
    let rd = r.rd as u32;
    let rs1 = r.rs1 as u32;
    let rs2 = r.rs2 as u32;
    let rs3 = r.rs3 as u32;
    lemma_even(r.imm);
    match f {
        format_t::r => lemma_fields_r(s.opcode, s.funct3, s.funct7, rd, rs1, rs2),
        format_t::i => lemma_fields_i(s.opcode, s.funct3, rd, rs1, r.imm),
        format_t::s => lemma_fields_s(s.opcode, s.funct3, rs1, rs2, r.imm),
        format_t::b => lemma_fields_b(s.opcode, s.funct3, rs1, rs2, r.imm),
        format_t::u => lemma_fields_u(s.opcode, rd, r.imm),
        format_t::j => lemma_fields_j(s.opcode, rd, r.imm),
        format_t::csr => lemma_fields_csr(s.opcode, s.funct3, rd, rs1, r.csr),
        format_t::r4 => lemma_fields_r4(s.opcode, s.funct7, rd, rs1, rs2, rs3),
        format_t::bare => lemma_fields_bare(s.opcode, s.funct3),
    }
}

/// Decoding undoes encoding: the encoding of a record that a four-byte
/// encoding can stand for decodes to that record, field for field.
pub proof fn lemma_decode_encode(r: insn_t)
    requires
        encodable(r),
    ensures
        decode_spec(encode_spec(r)) == Some(r),
{
    lemma_round_trip(r, insn_format(r.type_));
}

/// The selector fields of the four-byte encoding of the instruction `t`.
pub fn selector(t: insn_type_t) -> (r: selector_t)
    ensures
        r == insn_selector(t),
        r.opcode < 32,
        r.funct3 < 8,
        r.funct7 < 128,
{
    match t {
        insn_type_t::insn_lb => selector_t { opcode: 0x0, funct3: 0x0, funct7: 0x0 },
        insn_type_t::insn_lh => selector_t { opcode: 0x0, funct3: 0x1, funct7: 0x0 },
        insn_type_t::insn_lw => selector_t { opcode: 0x0, funct3: 0x2, funct7: 0x0 },
        insn_type_t::insn_ld => selector_t { opcode: 0x0, funct3: 0x3, funct7: 0x0 },
        insn_type_t::insn_lbu => selector_t { opcode: 0x0, funct3: 0x4, funct7: 0x0 },
        insn_type_t::insn_lhu => selector_t { opcode: 0x0, funct3: 0x5, funct7: 0x0 },
        insn_type_t::insn_lwu => selector_t { opcode: 0x0, funct3: 0x6, funct7: 0x0 },
        insn_type_t::insn_flw => selector_t { opcode: 0x1, funct3: 0x2, funct7: 0x0 },
        insn_type_t::insn_fld => selector_t { opcode: 0x1, funct3: 0x3, funct7: 0x0 },
        insn_type_t::insn_fence => selector_t { opcode: 0x3, funct3: 0x0, funct7: 0x0 },
        insn_type_t::insn_fence_i => selector_t { opcode: 0x3, funct3: 0x1, funct7: 0x0 },
        insn_type_t::insn_addi => selector_t { opcode: 0x4, funct3: 0x0, funct7: 0x0 },
        insn_type_t::insn_slli => selector_t { opcode: 0x4, funct3: 0x1, funct7: 0x0 },
        insn_type_t::insn_slti => selector_t { opcode: 0x4, funct3: 0x2, funct7: 0x0 },
        insn_type_t::insn_sltiu => selector_t { opcode: 0x4, funct3: 0x3, funct7: 0x0 },
        insn_type_t::insn_xori => selector_t { opcode: 0x4, funct3: 0x4, funct7: 0x0 },
        insn_type_t::insn_srli => selector_t { opcode: 0x4, funct3: 0x5, funct7: 0x0 },
        insn_type_t::insn_srai => selector_t { opcode: 0x4, funct3: 0x5, funct7: 0x0 },
        insn_type_t::insn_ori => selector_t { opcode: 0x4, funct3: 0x6, funct7: 0x0 },
        insn_type_t::insn_andi => selector_t { opcode: 0x4, funct3: 0x7, funct7: 0x0 },
        insn_type_t::insn_auipc => selector_t { opcode: 0x5, funct3: 0x0, funct7: 0x0 },
        insn_type_t::insn_addiw => selector_t { opcode: 0x6, funct3: 0x0, funct7: 0x0 },
        insn_type_t::insn_slliw => selector_t { opcode: 0x6, funct3: 0x1, funct7: 0x0 },
        insn_type_t::insn_srliw => selector_t { opcode: 0x6, funct3: 0x5, funct7: 0x0 },
        insn_type_t::insn_sraiw => selector_t { opcode: 0x6, funct3: 0x5, funct7: 0x0 },
        insn_type_t::insn_sb => selector_t { opcode: 0x8, funct3: 0x0, funct7: 0x0 },
        insn_type_t::insn_sh => selector_t { opcode: 0x8, funct3: 0x1, funct7: 0x0 },
        insn_type_t::insn_sw => selector_t { opcode: 0x8, funct3: 0x2, funct7: 0x0 },
        insn_type_t::insn_sd => selector_t { opcode: 0x8, funct3: 0x3, funct7: 0x0 },
        insn_type_t::insn_fsw => selector_t { opcode: 0x9, funct3: 0x2, funct7: 0x0 },
        insn_type_t::insn_fsd => selector_t { opcode: 0x9, funct3: 0x3, funct7: 0x0 },
        insn_type_t::insn_add => selector_t { opcode: 0xc, funct3: 0x0, funct7: 0x0 },
        insn_type_t::insn_sll => selector_t { opcode: 0xc, funct3: 0x1, funct7: 0x0 },
        insn_type_t::insn_slt => selector_t { opcode: 0xc, funct3: 0x2, funct7: 0x0 },
        insn_type_t::insn_sltu => selector_t { opcode: 0xc, funct3: 0x3, funct7: 0x0 },
        insn_type_t::insn_xor => selector_t { opcode: 0xc, funct3: 0x4, funct7: 0x0 },
        insn_type_t::insn_srl => selector_t { opcode: 0xc, funct3: 0x5, funct7: 0x0 },
        insn_type_t::insn_or => selector_t { opcode: 0xc, funct3: 0x6, funct7: 0x0 },
        insn_type_t::insn_and => selector_t { opcode: 0xc, funct3: 0x7, funct7: 0x0 },
        insn_type_t::insn_mul => selector_t { opcode: 0xc, funct3: 0x0, funct7: 0x1 },
        insn_type_t::insn_mulh => selector_t { opcode: 0xc, funct3: 0x1, funct7: 0x1 },
        insn_type_t::insn_mulhsu => selector_t { opcode: 0xc, funct3: 0x2, funct7: 0x1 },
        insn_type_t::insn_mulhu => selector_t { opcode: 0xc, funct3: 0x3, funct7: 0x1 },
        insn_type_t::insn_div => selector_t { opcode: 0xc, funct3: 0x4, funct7: 0x1 },
        insn_type_t::insn_divu => selector_t { opcode: 0xc, funct3: 0x5, funct7: 0x1 },
        insn_type_t::insn_rem => selector_t { opcode: 0xc, funct3: 0x6, funct7: 0x1 },
        insn_type_t::insn_remu => selector_t { opcode: 0xc, funct3: 0x7, funct7: 0x1 },
        insn_type_t::insn_sub => selector_t { opcode: 0xc, funct3: 0x0, funct7: 0x20 },
        insn_type_t::insn_sra => selector_t { opcode: 0xc, funct3: 0x5, funct7: 0x20 },
        insn_type_t::insn_lui => selector_t { opcode: 0xd, funct3: 0x0, funct7: 0x0 },
        insn_type_t::insn_addw => selector_t { opcode: 0xe, funct3: 0x0, funct7: 0x0 },
        insn_type_t::insn_sllw => selector_t { opcode: 0xe, funct3: 0x1, funct7: 0x0 },
        insn_type_t::insn_srlw => selector_t { opcode: 0xe, funct3: 0x5, funct7: 0x0 },
        insn_type_t::insn_mulw => selector_t { opcode: 0xe, funct3: 0x0, funct7: 0x1 },
        insn_type_t::insn_divw => selector_t { opcode: 0xe, funct3: 0x4, funct7: 0x1 },
        insn_type_t::insn_divuw => selector_t { opcode: 0xe, funct3: 0x5, funct7: 0x1 },
        insn_type_t::insn_remw => selector_t { opcode: 0xe, funct3: 0x6, funct7: 0x1 },
        insn_type_t::insn_remuw => selector_t { opcode: 0xe, funct3: 0x7, funct7: 0x1 },
        insn_type_t::insn_subw => selector_t { opcode: 0xe, funct3: 0x0, funct7: 0x20 },
        insn_type_t::insn_sraw => selector_t { opcode: 0xe, funct3: 0x5, funct7: 0x20 },
        insn_type_t::insn_fmadd_s => selector_t { opcode: 0x10, funct3: 0x0, funct7: 0x0 },
        insn_type_t::insn_fmadd_d => selector_t { opcode: 0x10, funct3: 0x0, funct7: 0x1 },
        insn_type_t::insn_fmsub_s => selector_t { opcode: 0x11, funct3: 0x0, funct7: 0x0 },
        insn_type_t::insn_fmsub_d => selector_t { opcode: 0x11, funct3: 0x0, funct7: 0x1 },
        insn_type_t::insn_fnmsub_s => selector_t { opcode: 0x12, funct3: 0x0, funct7: 0x0 },
        insn_type_t::insn_fnmsub_d => selector_t { opcode: 0x12, funct3: 0x0, funct7: 0x1 },
        insn_type_t::insn_fnmadd_s => selector_t { opcode: 0x13, funct3: 0x0, funct7: 0x0 },
        insn_type_t::insn_fnmadd_d => selector_t { opcode: 0x13, funct3: 0x0, funct7: 0x1 },
        insn_type_t::insn_fadd_s => selector_t { opcode: 0x14, funct3: 0x0, funct7: 0x0 },
        insn_type_t::insn_fadd_d => selector_t { opcode: 0x14, funct3: 0x0, funct7: 0x1 },
        insn_type_t::insn_fsub_s => selector_t { opcode: 0x14, funct3: 0x0, funct7: 0x4 },
        insn_type_t::insn_fsub_d => selector_t { opcode: 0x14, funct3: 0x0, funct7: 0x5 },
        insn_type_t::insn_fmul_s => selector_t { opcode: 0x14, funct3: 0x0, funct7: 0x8 },
        insn_type_t::insn_fmul_d => selector_t { opcode: 0x14, funct3: 0x0, funct7: 0x9 },
        insn_type_t::insn_fdiv_s => selector_t { opcode: 0x14, funct3: 0x0, funct7: 0xc },
        insn_type_t::insn_fdiv_d => selector_t { opcode: 0x14, funct3: 0x0, funct7: 0xd },
        insn_type_t::insn_fsgnj_s => selector_t { opcode: 0x14, funct3: 0x0, funct7: 0x10 },
        insn_type_t::insn_fsgnjn_s => selector_t { opcode: 0x14, funct3: 0x1, funct7: 0x10 },
        insn_type_t::insn_fsgnjx_s => selector_t { opcode: 0x14, funct3: 0x2, funct7: 0x10 },
        insn_type_t::insn_fsgnj_d => selector_t { opcode: 0x14, funct3: 0x0, funct7: 0x11 },
        insn_type_t::insn_fsgnjn_d => selector_t { opcode: 0x14, funct3: 0x1, funct7: 0x11 },
        insn_type_t::insn_fsgnjx_d => selector_t { opcode: 0x14, funct3: 0x2, funct7: 0x11 },
        insn_type_t::insn_fmin_s => selector_t { opcode: 0x14, funct3: 0x0, funct7: 0x14 },
        insn_type_t::insn_fmax_s => selector_t { opcode: 0x14, funct3: 0x1, funct7: 0x14 },
        insn_type_t::insn_fmin_d => selector_t { opcode: 0x14, funct3: 0x0, funct7: 0x15 },
        insn_type_t::insn_fmax_d => selector_t { opcode: 0x14, funct3: 0x1, funct7: 0x15 },
        insn_type_t::insn_fle_s => selector_t { opcode: 0x14, funct3: 0x0, funct7: 0x50 },
        insn_type_t::insn_flt_s => selector_t { opcode: 0x14, funct3: 0x1, funct7: 0x50 },
        insn_type_t::insn_feq_s => selector_t { opcode: 0x14, funct3: 0x2, funct7: 0x50 },
        insn_type_t::insn_fle_d => selector_t { opcode: 0x14, funct3: 0x0, funct7: 0x51 },
        insn_type_t::insn_flt_d => selector_t { opcode: 0x14, funct3: 0x1, funct7: 0x51 },
        insn_type_t::insn_feq_d => selector_t { opcode: 0x14, funct3: 0x2, funct7: 0x51 },
        insn_type_t::insn_fcvt_s_d => selector_t { opcode: 0x14, funct3: 0x0, funct7: 0x20 },
        insn_type_t::insn_fcvt_d_s => selector_t { opcode: 0x14, funct3: 0x0, funct7: 0x21 },
        insn_type_t::insn_fsqrt_s => selector_t { opcode: 0x14, funct3: 0x0, funct7: 0x2c },
        insn_type_t::insn_fsqrt_d => selector_t { opcode: 0x14, funct3: 0x0, funct7: 0x2d },
        insn_type_t::insn_fmv_w_x => selector_t { opcode: 0x14, funct3: 0x0, funct7: 0x78 },
        insn_type_t::insn_fmv_d_x => selector_t { opcode: 0x14, funct3: 0x0, funct7: 0x79 },
        insn_type_t::insn_fcvt_w_s => selector_t { opcode: 0x14, funct3: 0x0, funct7: 0x60 },
        insn_type_t::insn_fcvt_wu_s => selector_t { opcode: 0x14, funct3: 0x0, funct7: 0x60 },
        insn_type_t::insn_fcvt_l_s => selector_t { opcode: 0x14, funct3: 0x0, funct7: 0x60 },
        insn_type_t::insn_fcvt_lu_s => selector_t { opcode: 0x14, funct3: 0x0, funct7: 0x60 },
        insn_type_t::insn_fcvt_w_d => selector_t { opcode: 0x14, funct3: 0x0, funct7: 0x61 },
        insn_type_t::insn_fcvt_wu_d => selector_t { opcode: 0x14, funct3: 0x0, funct7: 0x61 },
        insn_type_t::insn_fcvt_l_d => selector_t { opcode: 0x14, funct3: 0x0, funct7: 0x61 },
        insn_type_t::insn_fcvt_lu_d => selector_t { opcode: 0x14, funct3: 0x0, funct7: 0x61 },
        insn_type_t::insn_fcvt_s_w => selector_t { opcode: 0x14, funct3: 0x0, funct7: 0x68 },
        insn_type_t::insn_fcvt_s_wu => selector_t { opcode: 0x14, funct3: 0x0, funct7: 0x68 },
        insn_type_t::insn_fcvt_s_l => selector_t { opcode: 0x14, funct3: 0x0, funct7: 0x68 },
        insn_type_t::insn_fcvt_s_lu => selector_t { opcode: 0x14, funct3: 0x0, funct7: 0x68 },
        insn_type_t::insn_fcvt_d_w => selector_t { opcode: 0x14, funct3: 0x0, funct7: 0x69 },
        insn_type_t::insn_fcvt_d_wu => selector_t { opcode: 0x14, funct3: 0x0, funct7: 0x69 },
        insn_type_t::insn_fcvt_d_l => selector_t { opcode: 0x14, funct3: 0x0, funct7: 0x69 },
        insn_type_t::insn_fcvt_d_lu => selector_t { opcode: 0x14, funct3: 0x0, funct7: 0x69 },
        insn_type_t::insn_fmv_x_w => selector_t { opcode: 0x14, funct3: 0x0, funct7: 0x70 },
        insn_type_t::insn_fclass_s => selector_t { opcode: 0x14, funct3: 0x1, funct7: 0x70 },
        insn_type_t::insn_fmv_x_d => selector_t { opcode: 0x14, funct3: 0x0, funct7: 0x71 },
        insn_type_t::insn_fclass_d => selector_t { opcode: 0x14, funct3: 0x1, funct7: 0x71 },
        insn_type_t::insn_beq => selector_t { opcode: 0x18, funct3: 0x0, funct7: 0x0 },
        insn_type_t::insn_bne => selector_t { opcode: 0x18, funct3: 0x1, funct7: 0x0 },
        insn_type_t::insn_blt => selector_t { opcode: 0x18, funct3: 0x4, funct7: 0x0 },
        insn_type_t::insn_bge => selector_t { opcode: 0x18, funct3: 0x5, funct7: 0x0 },
        insn_type_t::insn_bltu => selector_t { opcode: 0x18, funct3: 0x6, funct7: 0x0 },
        insn_type_t::insn_bgeu => selector_t { opcode: 0x18, funct3: 0x7, funct7: 0x0 },
        insn_type_t::insn_jalr => selector_t { opcode: 0x19, funct3: 0x0, funct7: 0x0 },
        insn_type_t::insn_jal => selector_t { opcode: 0x1b, funct3: 0x0, funct7: 0x0 },
        insn_type_t::insn_ecall => selector_t { opcode: 0x1c, funct3: 0x0, funct7: 0x0 },
        insn_type_t::insn_csrrw => selector_t { opcode: 0x1c, funct3: 0x1, funct7: 0x0 },
        insn_type_t::insn_csrrs => selector_t { opcode: 0x1c, funct3: 0x2, funct7: 0x0 },
        insn_type_t::insn_csrrc => selector_t { opcode: 0x1c, funct3: 0x3, funct7: 0x0 },
        insn_type_t::insn_csrrwi => selector_t { opcode: 0x1c, funct3: 0x5, funct7: 0x0 },
        insn_type_t::insn_csrrsi => selector_t { opcode: 0x1c, funct3: 0x6, funct7: 0x0 },
        insn_type_t::insn_csrrci => selector_t { opcode: 0x1c, funct3: 0x7, funct7: 0x0 },
        insn_type_t::num_insns => selector_t { opcode: 0, funct3: 0, funct7: 0 },
    }
}

/// The operand layout of the four-byte encoding of the instruction `t`.
pub fn format_of(t: insn_type_t) -> (f: format_t)
    ensures
        f == insn_format(t),
{
    match t {
        insn_type_t::insn_lb
        | insn_type_t::insn_lh
        | insn_type_t::insn_lw
        | insn_type_t::insn_ld
        | insn_type_t::insn_lbu
        | insn_type_t::insn_lhu
        | insn_type_t::insn_lwu
        | insn_type_t::insn_addi
        | insn_type_t::insn_slli
        | insn_type_t::insn_slti
        | insn_type_t::insn_sltiu
        | insn_type_t::insn_xori
        | insn_type_t::insn_srli
        | insn_type_t::insn_srai
        | insn_type_t::insn_ori
        | insn_type_t::insn_andi
        | insn_type_t::insn_addiw
        | insn_type_t::insn_slliw
        | insn_type_t::insn_srliw
        | insn_type_t::insn_sraiw
        | insn_type_t::insn_jalr
        | insn_type_t::insn_flw
        | insn_type_t::insn_fld => format_t::i,
        insn_type_t::insn_sb
        | insn_type_t::insn_sh
        | insn_type_t::insn_sw
        | insn_type_t::insn_sd
        | insn_type_t::insn_fsw
        | insn_type_t::insn_fsd => format_t::s,
        insn_type_t::insn_beq
        | insn_type_t::insn_bne
        | insn_type_t::insn_blt
        | insn_type_t::insn_bge
        | insn_type_t::insn_bltu
        | insn_type_t::insn_bgeu => format_t::b,
        insn_type_t::insn_auipc
        | insn_type_t::insn_lui => format_t::u,
        insn_type_t::insn_jal => format_t::j,
        insn_type_t::insn_csrrc
        | insn_type_t::insn_csrrci
        | insn_type_t::insn_csrrs
        | insn_type_t::insn_csrrsi
        | insn_type_t::insn_csrrw
        | insn_type_t::insn_csrrwi => format_t::csr,
        insn_type_t::insn_fmadd_s
        | insn_type_t::insn_fmsub_s
        | insn_type_t::insn_fnmsub_s
        | insn_type_t::insn_fnmadd_s
        | insn_type_t::insn_fmadd_d
        | insn_type_t::insn_fmsub_d
        | insn_type_t::insn_fnmsub_d
        | insn_type_t::insn_fnmadd_d => format_t::r4,
        insn_type_t::insn_fence
        | insn_type_t::insn_fence_i
        | insn_type_t::insn_ecall
        | insn_type_t::num_insns => format_t::bare,
        _ => format_t::r,
    }
}

/// Whether the four-byte encoding of the instruction `t` leaves `rs2` free,
/// or has the value `rs2` there that it asks for.
fn rs2_fits(t: insn_type_t, rs2: u8) -> (r: bool)
    ensures
        r == (fixed_rs2(t) matches Some(v) ==> rs2 == v),
{
    match t {
        insn_type_t::insn_fcvt_d_s
        | insn_type_t::insn_fsqrt_s
        | insn_type_t::insn_fsqrt_d
        | insn_type_t::insn_fmv_w_x
        | insn_type_t::insn_fmv_d_x
        | insn_type_t::insn_fcvt_w_s
        | insn_type_t::insn_fcvt_w_d
        | insn_type_t::insn_fcvt_s_w
        | insn_type_t::insn_fcvt_d_w
        | insn_type_t::insn_fmv_x_w
        | insn_type_t::insn_fclass_s
        | insn_type_t::insn_fmv_x_d
        | insn_type_t::insn_fclass_d => rs2 == 0,
        insn_type_t::insn_fcvt_s_d
        | insn_type_t::insn_fcvt_wu_s
        | insn_type_t::insn_fcvt_wu_d
        | insn_type_t::insn_fcvt_s_wu
        | insn_type_t::insn_fcvt_d_wu => rs2 == 1,
        insn_type_t::insn_fcvt_l_s
        | insn_type_t::insn_fcvt_l_d
        | insn_type_t::insn_fcvt_s_l
        | insn_type_t::insn_fcvt_d_l => rs2 == 2,
        insn_type_t::insn_fcvt_lu_s
        | insn_type_t::insn_fcvt_lu_d
        | insn_type_t::insn_fcvt_s_lu
        | insn_type_t::insn_fcvt_d_lu => rs2 == 3,
        _ => true,
    }
}

/// Whether the immediate `imm` is one that the instruction `t` can hold in
/// the layout `f`.
fn imm_fits(t: insn_type_t, f: format_t, imm: i32) -> (r: bool)
    requires
        f == insn_format(t),
    ensures
        r == {
            &&& f == format_t::i ==> imm_fits_i(t, imm)
            &&& f == format_t::s ==> -2048 <= imm < 2048
            &&& f == format_t::b ==> -4096 <= imm < 4096 && imm % 2 == 0
            &&& f == format_t::j ==> -0x10_0000 <= imm < 0x10_0000 && imm % 2 == 0
            &&& f == format_t::u ==> imm % 4096 == 0
        },
{
    proof {
        lemma_even(imm);
    }
    match f {
        format_t::i => match t {
            insn_type_t::insn_slli | insn_type_t::insn_srli => 0 <= imm && imm < 64,
            insn_type_t::insn_srai => 1024 <= imm && imm < 1088,
            insn_type_t::insn_slliw | insn_type_t::insn_srliw => 0 <= imm && imm < 32,
            insn_type_t::insn_sraiw => 1024 <= imm && imm < 1056,
            _ => -2048 <= imm && imm < 2048,
        },
        format_t::s => -2048 <= imm && imm < 2048,
        format_t::b => -4096 <= imm && imm < 4096 && imm & 1 == 0,
        format_t::j => -0x10_0000 <= imm && imm < 0x10_0000 && imm & 1 == 0,
        format_t::u => imm & 0xfff == 0,
        _ => true,
    }
}

/// Whether nothing is set in `r` that the layout `f` has no place for.
fn holds_only(f: format_t, r: &insn_t) -> (ok: bool)
    ensures
        ok == (*r == keep_operands(f, *r)),
{
    match f {
        format_t::r => r.rs3 == 0 && r.imm == 0 && r.csr == 0,
        format_t::i => r.rs2 == 0 && r.rs3 == 0 && r.csr == 0,
        format_t::s | format_t::b => r.rd == 0 && r.rs3 == 0 && r.csr == 0,
        format_t::u | format_t::j => r.rs1 == 0 && r.rs2 == 0 && r.rs3 == 0 && r.csr == 0,
        format_t::csr => r.rs2 == 0 && r.rs3 == 0 && r.imm == 0,
        format_t::r4 => r.imm == 0 && r.csr == 0,
        format_t::bare => r.rd == 0 && r.rs1 == 0 && r.rs2 == 0 && r.rs3 == 0 && r.imm == 0
            && r.csr == 0,
    }
}

/// Whether a four-byte encoding can stand for the record `r`.
pub fn is_encodable(r: &insn_t) -> (ok: bool)
    ensures
        ok == encodable(*r),
{
    let f = format_of(r.type_);
    let ends = match r.type_ {
        insn_type_t::insn_jal | insn_type_t::insn_jalr | insn_type_t::insn_ecall => true,
        _ => false,
    };
    match r.type_ {
        insn_type_t::num_insns => false,
        _ => r.rd < 32 && r.rs1 < 32 && r.rs2 < 32 && r.rs3 < 32 && !r.rvc && r.cont == ends
            && holds_only(f, r) && imm_fits(r.type_, f, r.imm) && (match f {
            format_t::csr => r.csr < 4096,
            _ => true,
        }) && rs2_fits(r.type_, r.rs2),
    }
}

/// Encodes the record `r` in four bytes, or returns `None` where no
/// four-byte encoding can stand for it. What it returns decodes to `r`.
pub fn insn_encode(r: &insn_t) -> (data: Option<u32>)
    ensures
        data is Some == encodable(*r),
        data matches Some(d) ==> d == encode_spec(*r) && decode_spec(d) == Some(*r),
{
    if !is_encodable(r) {
        return None;
    }
    proof {
        lemma_decode_encode(*r);
    }
    let s = selector(r.type_);
    let head: u32 = 0x3u32 | (s.opcode << 2) | (s.funct3 << 12);
    let rd: u32 = r.rd as u32;
    let rs1: u32 = r.rs1 as u32;
    let rs2: u32 = r.rs2 as u32;
    let rs3: u32 = r.rs3 as u32;
    let imm: u32 = #[verifier::truncate]
    (r.imm as u32);
    Some(
        match format_of(r.type_) {
            format_t::r => head | (s.funct7 << 25) | (rd << 7) | (rs1 << 15) | (rs2 << 20),
            format_t::i => head | (rd << 7) | (rs1 << 15) | ((imm & 0xfff) << 20),
            format_t::s => head | (rs1 << 15) | (rs2 << 20) | ((imm & 0x1f) << 7) | (((imm >> 5)
                & 0x7f) << 25),
            format_t::b => head | (rs1 << 15) | (rs2 << 20) | (((imm >> 1) & 0xf) << 8) | (((imm
                >> 5) & 0x3f) << 25) | (((imm >> 11) & 0x1) << 7) | (((imm >> 12) & 0x1) << 31),
            format_t::u => (0x3u32 | (s.opcode << 2) | (0 << 12)) | (rd << 7) | (imm & 0xfffff000),
            format_t::j => (0x3u32 | (s.opcode << 2) | (0 << 12)) | (rd << 7) | (((imm >> 1)
                & 0x3ff) << 21) | (((imm >> 11) & 0x1) << 20) | (((imm >> 12) & 0xff) << 12) | (((imm
                >> 20) & 0x1) << 31),
            format_t::csr => head | (rd << 7) | (rs1 << 15) | ((r.csr as u32) << 20),
            format_t::r4 => (0x3u32 | (s.opcode << 2) | (0 << 12)) | (s.funct7 << 25) | (rs3 << 27)
                | (rd << 7) | (rs1 << 15) | (rs2 << 20),
            format_t::bare => head,
        },
    )
}

} // verus!
