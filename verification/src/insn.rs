//! Decoded instructions, the fields of an encoding, and the readers that
//! take the operands of one encoding format out of it.

use vstd::prelude::*;

verus! {

/// The closed set of instructions the decoder can produce. `num_insns` is not
/// an instruction: it marks a record that has not been decoded.
#[derive(Copy, Clone, Debug, PartialEq, Eq, Structural)]
pub enum insn_type_t {
    insn_lb,
    insn_lh,
    insn_lw,
    insn_ld,
    insn_lbu,
    insn_lhu,
    insn_lwu,
    insn_fence,
    insn_fence_i,
    insn_addi,
    insn_slli,
    insn_slti,
    insn_sltiu,
    insn_xori,
    insn_srli,
    insn_srai,
    insn_ori,
    insn_andi,
    insn_auipc,
    insn_addiw,
    insn_slliw,
    insn_srliw,
    insn_sraiw,
    insn_sb,
    insn_sh,
    insn_sw,
    insn_sd,
    insn_add,
    insn_sll,
    insn_slt,
    insn_sltu,
    insn_xor,
    insn_srl,
    insn_or,
    insn_and,
    insn_mul,
    insn_mulh,
    insn_mulhsu,
    insn_mulhu,
    insn_div,
    insn_divu,
    insn_rem,
    insn_remu,
    insn_sub,
    insn_sra,
    insn_lui,
    insn_addw,
    insn_sllw,
    insn_srlw,
    insn_mulw,
    insn_divw,
    insn_divuw,
    insn_remw,
    insn_remuw,
    insn_subw,
    insn_sraw,
    insn_beq,
    insn_bne,
    insn_blt,
    insn_bge,
    insn_bltu,
    insn_bgeu,
    insn_jalr,
    insn_jal,
    insn_ecall,
    insn_csrrc,
    insn_csrrci,
    insn_csrrs,
    insn_csrrsi,
    insn_csrrw,
    insn_csrrwi,
    insn_flw,
    insn_fsw,
    insn_fmadd_s,
    insn_fmsub_s,
    insn_fnmsub_s,
    insn_fnmadd_s,
    insn_fadd_s,
    insn_fsub_s,
    insn_fmul_s,
    insn_fdiv_s,
    insn_fsqrt_s,
    insn_fsgnj_s,
    insn_fsgnjn_s,
    insn_fsgnjx_s,
    insn_fmin_s,
    insn_fmax_s,
    insn_fcvt_w_s,
    insn_fcvt_wu_s,
    insn_fmv_x_w,
    insn_feq_s,
    insn_flt_s,
    insn_fle_s,
    insn_fclass_s,
    insn_fcvt_s_w,
    insn_fcvt_s_wu,
    insn_fmv_w_x,
    insn_fcvt_l_s,
    insn_fcvt_lu_s,
    insn_fcvt_s_l,
    insn_fcvt_s_lu,
    insn_fld,
    insn_fsd,
    insn_fmadd_d,
    insn_fmsub_d,
    insn_fnmsub_d,
    insn_fnmadd_d,
    insn_fadd_d,
    insn_fsub_d,
    insn_fmul_d,
    insn_fdiv_d,
    insn_fsqrt_d,
    insn_fsgnj_d,
    insn_fsgnjn_d,
    insn_fsgnjx_d,
    insn_fmin_d,
    insn_fmax_d,
    insn_fcvt_s_d,
    insn_fcvt_d_s,
    insn_feq_d,
    insn_flt_d,
    insn_fle_d,
    insn_fclass_d,
    insn_fcvt_w_d,
    insn_fcvt_wu_d,
    insn_fcvt_d_w,
    insn_fcvt_d_wu,
    insn_fcvt_l_d,
    insn_fcvt_lu_d,
    insn_fmv_x_d,
    insn_fcvt_d_l,
    insn_fcvt_d_lu,
    insn_fmv_d_x,
    num_insns,
}

/// A decoded instruction.
///
/// `rd`, `rs1`, `rs2` and `rs3` are register numbers, `imm` is the immediate
/// after sign extension, `csr` the control and status register number, `rvc`
/// tells a two-byte encoding from a four-byte one, and `cont` is set when the
/// instruction ends the block that is being executed.
#[derive(Copy, Clone, Debug, PartialEq, Eq, Structural)]
pub struct insn_t {
    pub rd: u8,
    pub rs1: u8,
    pub rs2: u8,
    pub rs3: u8,
    pub imm: i32,
    pub csr: u16,
    pub type_: insn_type_t,
    pub rvc: bool,
    pub cont: bool,
}

impl insn_t {
    /// The record that a decoder starts from: every field zero, no
    /// instruction chosen yet.
    pub open spec fn blank() -> insn_t {
        insn_t {
            rd: 0,
            rs1: 0,
            rs2: 0,
            rs3: 0,
            imm: 0,
            csr: 0,
            type_: insn_type_t::num_insns,
            rvc: false,
            cont: false,
        }
    }

    /// Every register number names one of the 32 registers.
    pub open spec fn wf(self) -> bool {
        self.rd < 32 && self.rs1 < 32 && self.rs2 < 32 && self.rs3 < 32
    }
}

impl Default for insn_t {
    fn default() -> (r: Self)
        ensures
            r == insn_t::blank(),
    {
        insn_t {
            rd: 0,
            rs1: 0,
            rs2: 0,
            rs3: 0,
            imm: 0,
            csr: 0,
            type_: insn_type_t::num_insns,
            rvc: false,
            cont: false,
        }
    }
}

/// The field of `data` that starts at bit `lo` and is as wide as `mask`.
pub open spec fn field(data: u32, lo: u32, mask: u32) -> u32 {
    (data >> lo) & mask
}

/// The value of `raw` read as a two's complement number whose sign bit has
/// the weight `sign`.
pub open spec fn sign_extend(raw: u32, sign: u32) -> int {
    if raw >= sign {
        raw - 2 * sign
    } else {
        raw as int
    }
}

pub open spec fn spec_opcode(data: u32) -> u32 {
    field(data, 2, 0x1f)
}

pub open spec fn spec_rd(data: u32) -> u8 {
    field(data, 7, 0x1f) as u8
}

pub open spec fn spec_rs1(data: u32) -> u8 {
    field(data, 15, 0x1f) as u8
}

pub open spec fn spec_rs2(data: u32) -> u8 {
    field(data, 20, 0x1f) as u8
}

pub open spec fn spec_rs3(data: u32) -> u8 {
    field(data, 27, 0x1f) as u8
}

pub open spec fn spec_funct2(data: u32) -> u32 {
    field(data, 25, 0x3)
}

pub open spec fn spec_funct3(data: u32) -> u32 {
    field(data, 12, 0x7)
}

pub open spec fn spec_funct7(data: u32) -> u32 {
    field(data, 25, 0x7f)
}

pub open spec fn spec_imm116(data: u32) -> u32 {
    field(data, 26, 0x3f)
}

/// Bits 31..12 of the word, in place: the immediate of `lui` and `auipc`.
pub open spec fn imm_u(data: u32) -> i32 {
    sign_extend(data & 0xfffff000, 0x8000_0000) as i32
}

/// Bits 31..20 of the word as a signed 12-bit number.
pub open spec fn imm_i(data: u32) -> i32 {
    sign_extend(data >> 20, 0x800) as i32
}

/// The store offset: bits 31..25 above bits 11..7, signed, 12 bits.
pub open spec fn imm_s_raw(data: u32) -> u32 {
    (field(data, 25, 0x7f) << 5) | field(data, 7, 0x1f)
}

pub open spec fn imm_s(data: u32) -> i32 {
    sign_extend(imm_s_raw(data), 0x800) as i32
}

/// The branch offset: bit 31, bit 7, bits 30..25, bits 11..8 and a zero,
/// from the top down; signed, 13 bits.
pub open spec fn imm_b_raw(data: u32) -> u32 {
    (field(data, 31, 0x1) << 12) | (field(data, 7, 0x1) << 11) | (field(data, 25, 0x3f) << 5) | (
    field(data, 8, 0xf) << 1)
}

pub open spec fn imm_b(data: u32) -> i32 {
    sign_extend(imm_b_raw(data), 0x1000) as i32
}

/// The jump offset: bit 31, bits 19..12, bit 20, bits 30..21 and a zero,
/// from the top down; signed, 21 bits.
pub open spec fn imm_j_raw(data: u32) -> u32 {
    (field(data, 31, 0x1) << 20) | (field(data, 12, 0xff) << 12) | (field(data, 20, 0x1) << 11) | (
    field(data, 21, 0x3ff) << 1)
}

pub open spec fn imm_j(data: u32) -> i32 {
    sign_extend(imm_j_raw(data), 0x10_0000) as i32
}

/// Bits 31..20 of the word: the number of a control and status register.
pub open spec fn spec_csr(data: u32) -> u16 {
    (data >> 20) as u16
}

/// Bounds of the fields of a four-byte encoding.
pub proof fn lemma_word_fields(data: u32)
    by (bit_vector)
    ensures
        (data >> 2) & 0x1f < 32,
        (data >> 7) & 0x1f < 32,
        (data >> 15) & 0x1f < 32,
        (data >> 20) & 0x1f < 32,
        (data >> 27) & 0x1f < 32,
        (data >> 25) & 0x3 < 4,
        (data >> 12) & 0x7 < 8,
        (data >> 25) & 0x7f < 128,
        (data >> 26) & 0x3f < 64,
        data >> 20 < 0x1000,
        (((data >> 25) & 0x7f) << 5) | ((data >> 7) & 0x1f) < 0x1000,
        (((data >> 31) & 0x1) << 12) | (((data >> 7) & 0x1) << 11) | (((data >> 25) & 0x3f) << 5)
            | (((data >> 8) & 0xf) << 1) < 0x2000,
        (((data >> 31) & 0x1) << 20) | (((data >> 12) & 0xff) << 12) | (((data >> 20) & 0x1) << 11)
            | (((data >> 21) & 0x3ff) << 1) < 0x20_0000,
{
}

/// Shifting a narrow value up to the top of the word and arithmetically back
/// down reads it as a signed number of its own width.
pub proof fn lemma_sign_shift(raw: u32)
    by (bit_vector)
    ensures
        (raw as i32) == (if raw >= 0x8000_0000u32 { raw - 0x1_0000_0000 } else { raw as int }),
        raw < 0x1000 ==> (((raw << 20) as i32) >> 20) == (if raw >= 0x800u32 { raw - 0x1000 } else { raw as int }),
        raw < 0x2000 ==> (((raw << 19) as i32) >> 19) == (if raw >= 0x1000u32 { raw - 0x2000 } else { raw as int }),
        raw < 0x20_0000 ==> (((raw << 11) as i32) >> 11) == (if raw >= 0x10_0000u32 { raw - 0x20_0000 } else { raw as int }),
        raw < 0x40 ==> (((raw << 26) as i32) >> 26) == (if raw >= 0x20u32 { raw - 0x40 } else { raw as int }),
        raw < 0x200 ==> (((raw << 23) as i32) >> 23) == (if raw >= 0x100u32 { raw - 0x200 } else { raw as int }),
        raw < 0x400 ==> (((raw << 22) as i32) >> 22) == (if raw >= 0x200u32 { raw - 0x400 } else { raw as int }),
        raw < 0x4_0000 ==> (((raw << 14) as i32) >> 14) == (if raw >= 0x2_0000u32 { raw - 0x4_0000 } else { raw as int }),
{
}

/// Bits 6..2: the major opcode of a four-byte encoding.
#[verifier::when_used_as_spec(spec_opcode)]
pub fn opcode(data: u32) -> (r: u32)
    ensures
        r == spec_opcode(data),
        r < 32,
{
    proof {
        lemma_word_fields(data);
    }
    (data >> 2) & 0x1f
}

/// Bits 11..7: the destination register.
#[verifier::when_used_as_spec(spec_rd)]
pub fn rd(data: u32) -> (r: u8)
    ensures
        r == spec_rd(data),
        r < 32,
{
    proof {
        lemma_word_fields(data);
    }
    ((data >> 7) & 0x1f) as u8
}

/// Bits 19..15: the first source register.
#[verifier::when_used_as_spec(spec_rs1)]
pub fn rs1(data: u32) -> (r: u8)
    ensures
        r == spec_rs1(data),
        r < 32,
{
    proof {
        lemma_word_fields(data);
    }
    ((data >> 15) & 0x1f) as u8
}

/// Bits 24..20: the second source register.
#[verifier::when_used_as_spec(spec_rs2)]
pub fn rs2(data: u32) -> (r: u8)
    ensures
        r == spec_rs2(data),
        r < 32,
{
    proof {
        lemma_word_fields(data);
    }
    ((data >> 20) & 0x1f) as u8
}

/// Bits 31..27: the third source register of a fused multiply-add.
#[verifier::when_used_as_spec(spec_rs3)]
pub fn rs3(data: u32) -> (r: u8)
    ensures
        r == spec_rs3(data),
        r < 32,
{
    proof {
        lemma_word_fields(data);
    }
    ((data >> 27) & 0x1f) as u8
}

/// Bits 26..25.
#[verifier::when_used_as_spec(spec_funct2)]
pub fn funct2(data: u32) -> (r: u32)
    ensures
        r == spec_funct2(data),
        r < 4,
{
    proof {
        lemma_word_fields(data);
    }
    (data >> 25) & 0x3
}

/// Bits 14..12.
#[verifier::when_used_as_spec(spec_funct3)]
pub fn funct3(data: u32) -> (r: u32)
    ensures
        r == spec_funct3(data),
        r < 8,
{
    proof {
        lemma_word_fields(data);
    }
    (data >> 12) & 0x7
}

/// Bits 31..25.
#[verifier::when_used_as_spec(spec_funct7)]
pub fn funct7(data: u32) -> (r: u32)
    ensures
        r == spec_funct7(data),
        r < 128,
{
    proof {
        lemma_word_fields(data);
    }
    (data >> 25) & 0x7f
}

/// Bits 31..26: what stands above the amount of a shift by an immediate.
#[verifier::when_used_as_spec(spec_imm116)]
pub fn imm116(data: u32) -> (r: u32)
    ensures
        r == spec_imm116(data),
        r < 64,
{
    proof {
        lemma_word_fields(data);
    }
    (data >> 26) & 0x3f
}

impl insn_t {
    /// Reads a U-type word: the upper immediate and `rd`.
    pub fn insn_utype_read(&mut self, data: u32)
        ensures
            *final(self) == (insn_t { imm: imm_u(data), rd: spec_rd(data), ..*old(self) }),
    {
        let raw: u32 = data & 0xfffff000;
        proof {
            lemma_sign_shift(raw);
        }
        self.imm = #[verifier::truncate] (raw as i32);
        self.rd = rd(data);
    }

    /// Reads an I-type word: the signed 12-bit immediate, `rs1` and `rd`.
    pub fn insn_itype_read(&mut self, data: u32)
        ensures
            *final(self) == (insn_t {
                imm: imm_i(data),
                rs1: spec_rs1(data),
                rd: spec_rd(data),
                ..*old(self)
            }),
    {
        let raw: u32 = data >> 20;
        proof {
            lemma_word_fields(data);
            lemma_sign_shift(raw);
        }
        self.imm = (#[verifier::truncate] ((raw << 20) as i32)) >> 20;
        self.rs1 = rs1(data);
        self.rd = rd(data);
    }
    /// Reads a J-type word: the signed 21-bit jump offset and `rd`.
    pub fn insn_jtype_read(&mut self, data: u32)
        ensures
            *final(self) == (insn_t { imm: imm_j(data), rd: spec_rd(data), ..*old(self) }),
    {
        let imm20: u32 = (data >> 31) & 0x1;
        let imm101: u32 = (data >> 21) & 0x3ff;
        let imm11: u32 = (data >> 20) & 0x1;
        let imm1912: u32 = (data >> 12) & 0xff;

        let raw: u32 = (imm20 << 20) | (imm1912 << 12) | (imm11 << 11) | (imm101 << 1);
        proof {
            lemma_word_fields(data);
            lemma_sign_shift(raw);
        }
        self.imm = (#[verifier::truncate] ((raw << 11) as i32)) >> 11;
        self.rd = rd(data);
    }

    /// Reads a B-type word: the signed 13-bit branch offset, `rs1` and `rs2`.
    pub fn insn_btype_read(&mut self, data: u32)
        ensures
            *final(self) == (insn_t {
                imm: imm_b(data),
                rs1: spec_rs1(data),
                rs2: spec_rs2(data),
                ..*old(self)
            }),
    {
        let imm12: u32 = (data >> 31) & 0x1;
        let imm105: u32 = (data >> 25) & 0x3f;
        let imm41: u32 = (data >> 8) & 0xf;
        let imm11: u32 = (data >> 7) & 0x1;

        let raw: u32 = (imm12 << 12) | (imm11 << 11) | (imm105 << 5) | (imm41 << 1);
        proof {
            lemma_word_fields(data);
            lemma_sign_shift(raw);
        }
        self.imm = (#[verifier::truncate] ((raw << 19) as i32)) >> 19;
        self.rs1 = rs1(data);
        self.rs2 = rs2(data);
    }

    /// Reads an R-type word: `rs1`, `rs2` and `rd`.
    pub fn insn_rtype_read(&mut self, data: u32)
        ensures
            *final(self) == (insn_t {
                rs1: spec_rs1(data),
                rs2: spec_rs2(data),
                rd: spec_rd(data),
                ..*old(self)
            }),
    {
        self.rs1 = rs1(data);
        self.rs2 = rs2(data);
        self.rd = rd(data);
    }

    /// Reads an S-type word: the signed 12-bit store offset, `rs1` and `rs2`.
    pub fn insn_stype_read(&mut self, data: u32)
        ensures
            *final(self) == (insn_t {
                imm: imm_s(data),
                rs1: spec_rs1(data),
                rs2: spec_rs2(data),
                ..*old(self)
            }),
    {
        let imm115: u32 = (data >> 25) & 0x7f;
        let imm40: u32 = (data >> 7) & 0x1f;

        let raw: u32 = (imm115 << 5) | imm40;
        proof {
            lemma_word_fields(data);
            lemma_sign_shift(raw);
        }
        self.imm = (#[verifier::truncate] ((raw << 20) as i32)) >> 20;
        self.rs1 = rs1(data);
        self.rs2 = rs2(data);
    }

    /// Reads a word that names a control and status register: the register's
    /// number, `rs1` and `rd`.
    pub fn insn_csrtype_read(&mut self, data: u32)
        ensures
            *final(self) == (insn_t {
                csr: spec_csr(data),
                rs1: spec_rs1(data),
                rd: spec_rd(data),
                ..*old(self)
            }),
    {
        proof {
            lemma_word_fields(data);
        }
        self.csr = (data >> 20) as u16;
        self.rs1 = rs1(data);
        self.rd = rd(data);
    }

    /// Reads the four registers of a fused multiply-add.
    pub fn insn_fprtype_read(&mut self, data: u32)
        ensures
            *final(self) == (insn_t {
                rs1: spec_rs1(data),
                rs2: spec_rs2(data),
                rs3: spec_rs3(data),
                rd: spec_rd(data),
                ..*old(self)
            }),
    {
        self.rs1 = rs1(data);
        self.rs2 = rs2(data);
        self.rs3 = rs3(data);
        self.rd = rd(data);
    }
}

/// The field of the two-byte encoding `data` that starts at bit `lo` and is
/// as wide as `mask`.
pub open spec fn cfield(data: u16, lo: u16, mask: u16) -> u16 {
    (data >> lo) & mask
}

pub open spec fn spec_copcode(data: u16) -> u8 {
    cfield(data, 13, 0x7) as u8
}

pub open spec fn spec_cfunct1(data: u16) -> u8 {
    cfield(data, 12, 0x1) as u8
}

pub open spec fn spec_cfunct2low(data: u16) -> u8 {
    cfield(data, 5, 0x3) as u8
}

pub open spec fn spec_cfunct2high(data: u16) -> u8 {
    cfield(data, 10, 0x3) as u8
}

pub open spec fn spec_rp1(data: u16) -> u8 {
    cfield(data, 7, 0x7) as u8
}

pub open spec fn spec_rp2(data: u16) -> u8 {
    cfield(data, 2, 0x7) as u8
}

pub open spec fn spec_rc1(data: u16) -> u8 {
    cfield(data, 7, 0x1f) as u8
}

pub open spec fn spec_rc2(data: u16) -> u8 {
    cfield(data, 2, 0x1f) as u8
}

/// Bit 12 above bits 6..2, unsigned: six bits.
pub open spec fn imm_ci_raw(data: u16) -> u16 {
    (cfield(data, 12, 0x1) << 5) | cfield(data, 2, 0x1f)
}

/// Bit 12 above bits 6..2 as a signed 6-bit number.
pub open spec fn imm_ci(data: u16) -> i32 {
    sign_extend(imm_ci_raw(data) as u32, 0x20) as i32
}

/// The offset of a stack-relative doubleword load: bits 4..2 give bits 8..6,
/// bit 12 gives bit 5, bits 6..5 give bits 4..3.
pub open spec fn imm_ci2(data: u16) -> i32 {
    ((cfield(data, 2, 0x7) << 6) | (cfield(data, 5, 0x3) << 3) | (cfield(data, 12, 0x1) << 5)) as i32
}

/// The unsigned form of the stack pointer adjustment: bit 12 gives bit 9,
/// bits 4..3 give bits 8..7, bit 5 gives bit 6, bit 2 gives bit 5, bit 6
/// gives bit 4.
pub open spec fn imm_ci3_raw(data: u16) -> u16 {
    (cfield(data, 2, 0x1) << 5) | (cfield(data, 3, 0x3) << 7) | (cfield(data, 5, 0x1) << 6) | (
    cfield(data, 6, 0x1) << 4) | (cfield(data, 12, 0x1) << 9)
}

/// The stack pointer adjustment as a signed 10-bit number.
pub open spec fn imm_ci3(data: u16) -> i32 {
    sign_extend(imm_ci3_raw(data) as u32, 0x200) as i32
}

/// The offset of a stack-relative word load: bit 12 gives bit 5, bits 6..4
/// give bits 4..2, bits 3..2 give bits 7..6.
pub open spec fn imm_ci4(data: u16) -> i32 {
    ((cfield(data, 12, 0x1) << 5) | (cfield(data, 4, 0x7) << 2) | (cfield(data, 2, 0x3) << 6)) as i32
}

/// The unsigned form of the compressed upper immediate: bit 12 gives bit 17,
/// bits 6..2 give bits 16..12.
pub open spec fn imm_ci5_raw(data: u16) -> u32 {
    ((cfield(data, 2, 0x1f) as u32) << 12) | ((cfield(data, 12, 0x1) as u32) << 17)
}

/// The compressed upper immediate as a signed 18-bit number.
pub open spec fn imm_ci5(data: u16) -> i32 {
    sign_extend(imm_ci5_raw(data), 0x2_0000) as i32
}

/// The unsigned form of the compressed branch offset: bit 12 gives bit 8,
/// bits 6..5 give bits 7..6, bit 2 gives bit 5, bits 11..10 give bits 4..3,
/// bits 4..3 give bits 2..1.
pub open spec fn imm_cb_raw(data: u16) -> u16 {
    (cfield(data, 12, 0x1) << 8) | (cfield(data, 5, 0x3) << 6) | (cfield(data, 2, 0x1) << 5) | (
    cfield(data, 10, 0x3) << 3) | (cfield(data, 3, 0x3) << 1)
}

/// The compressed branch offset as a signed 9-bit number.
pub open spec fn imm_cb(data: u16) -> i32 {
    sign_extend(imm_cb_raw(data) as u32, 0x100) as i32
}

/// The offset of a doubleword load or store through a register: bits 6..5
/// give bits 7..6, bits 12..10 give bits 5..3.
pub open spec fn imm_cs(data: u16) -> i32 {
    ((cfield(data, 5, 0x3) << 6) | (cfield(data, 10, 0x7) << 3)) as i32
}

/// The offset of a word load or store through a register: bit 5 gives bit 6,
/// bit 6 gives bit 2, bits 12..10 give bits 5..3.
pub open spec fn imm_cs2(data: u16) -> i32 {
    ((cfield(data, 5, 0x1) << 6) | (cfield(data, 6, 0x1) << 2) | (cfield(data, 10, 0x7) << 3)) as i32
}

/// The unsigned form of the compressed jump offset: bit 12 gives bit 11,
/// bit 8 gives bit 10, bits 10..9 give bits 9..8, bit 6 gives bit 7, bit 7
/// gives bit 6, bit 2 gives bit 5, bit 11 gives bit 4, bits 5..3 give bits
/// 3..1.
pub open spec fn imm_cj_raw(data: u16) -> u16 {
    (cfield(data, 2, 0x1) << 5) | (cfield(data, 3, 0x7) << 1) | (cfield(data, 6, 0x1) << 7) | (
    cfield(data, 7, 0x1) << 6) | (cfield(data, 8, 0x1) << 10) | (cfield(data, 9, 0x3) << 8) | (
    cfield(data, 11, 0x1) << 4) | (cfield(data, 12, 0x1) << 11)
}

/// The compressed jump offset as a signed 12-bit number.
pub open spec fn imm_cj(data: u16) -> i32 {
    sign_extend(imm_cj_raw(data) as u32, 0x800) as i32
}

/// The offset of a stack-relative doubleword store: bits 9..7 give bits
/// 8..6, bits 12..10 give bits 5..3.
pub open spec fn imm_css(data: u16) -> i32 {
    ((cfield(data, 7, 0x7) << 6) | (cfield(data, 10, 0x7) << 3)) as i32
}

/// The offset of a stack-relative word store: bits 8..7 give bits 7..6, bits
/// 12..9 give bits 5..2.
pub open spec fn imm_css2(data: u16) -> i32 {
    ((cfield(data, 7, 0x3) << 6) | (cfield(data, 9, 0xf) << 2)) as i32
}

/// The amount that is added to the stack pointer to form an address: bit 5
/// gives bit 3, bit 6 gives bit 2, bits 10..7 give bits 9..6, bits 12..11
/// give bits 5..4.
pub open spec fn imm_ciw(data: u16) -> i32 {
    ((cfield(data, 5, 0x1) << 3) | (cfield(data, 6, 0x1) << 2) | (cfield(data, 7, 0xf) << 6) | (
    cfield(data, 11, 0x3) << 4)) as i32
}

/// Bounds of the fields of a two-byte encoding.
pub proof fn lemma_half_fields(data: u16)
    by (bit_vector)
    ensures
        (data >> 13) & 0x7 < 8,
        (data >> 12) & 0x1 < 2,
        (data >> 5) & 0x3 < 4,
        (data >> 10) & 0x3 < 4,
        (data >> 7) & 0x7 < 8,
        (data >> 2) & 0x7 < 8,
        (data >> 7) & 0x1f < 32,
        (data >> 2) & 0x1f < 32,
        (((data >> 12) & 0x1) << 5) | ((data >> 2) & 0x1f) < 0x40,
        (((data >> 2) & 0x1) << 5) | (((data >> 3) & 0x3) << 7) | (((data >> 5) & 0x1) << 6) | (((data
            >> 6) & 0x1) << 4) | (((data >> 12) & 0x1) << 9) < 0x400,
        ((((data >> 2) & 0x1f) as u32) << 12) | ((((data >> 12) & 0x1) as u32) << 17) < 0x4_0000,
        (((data >> 12) & 0x1) << 8) | (((data >> 5) & 0x3) << 6) | (((data >> 2) & 0x1) << 5) | (((data
            >> 10) & 0x3) << 3) | (((data >> 3) & 0x3) << 1) < 0x200,
        (((data >> 2) & 0x1) << 5) | (((data >> 3) & 0x7) << 1) | (((data >> 6) & 0x1) << 7) | (((data
            >> 7) & 0x1) << 6) | (((data >> 8) & 0x1) << 10) | (((data >> 9) & 0x3) << 8) | (((data
            >> 11) & 0x1) << 4) | (((data >> 12) & 0x1) << 11) < 0x1000,
{
}

/// Bits 15..13: the opcode of a two-byte encoding within its quadrant.
#[verifier::when_used_as_spec(spec_copcode)]
pub fn copcode(data: u16) -> (r: u8)
    ensures
        r == spec_copcode(data),
        r < 8,
{
    proof {
        lemma_half_fields(data);
    }
    ((data >> 13) & 0x7) as u8
}

/// Bit 12.
#[verifier::when_used_as_spec(spec_cfunct1)]
pub fn cfunct1(data: u16) -> (r: u8)
    ensures
        r == spec_cfunct1(data),
        r < 2,
{
    proof {
        lemma_half_fields(data);
    }
    ((data >> 12) & 0x1) as u8
}

/// Bits 6..5.
#[verifier::when_used_as_spec(spec_cfunct2low)]
pub fn cfunct2low(data: u16) -> (r: u8)
    ensures
        r == spec_cfunct2low(data),
        r < 4,
{
    proof {
        lemma_half_fields(data);
    }
    ((data >> 5) & 0x3) as u8
}

/// Bits 11..10.
#[verifier::when_used_as_spec(spec_cfunct2high)]
pub fn cfunct2high(data: u16) -> (r: u8)
    ensures
        r == spec_cfunct2high(data),
        r < 4,
{
    proof {
        lemma_half_fields(data);
    }
    ((data >> 10) & 0x3) as u8
}

/// Bits 9..7: a three-bit register field, which stands for registers 8 to 15
/// once 8 is added.
#[verifier::when_used_as_spec(spec_rp1)]
pub fn rp1(data: u16) -> (r: u8)
    ensures
        r == spec_rp1(data),
        r < 8,
{
    proof {
        lemma_half_fields(data);
    }
    ((data >> 7) & 0x7) as u8
}

/// Bits 4..2: a three-bit register field, which stands for registers 8 to 15
/// once 8 is added.
#[verifier::when_used_as_spec(spec_rp2)]
pub fn rp2(data: u16) -> (r: u8)
    ensures
        r == spec_rp2(data),
        r < 8,
{
    proof {
        lemma_half_fields(data);
    }
    ((data >> 2) & 0x7) as u8
}

/// Bits 11..7: a full register field.
#[verifier::when_used_as_spec(spec_rc1)]
pub fn rc1(data: u16) -> (r: u8)
    ensures
        r == spec_rc1(data),
        r < 32,
{
    proof {
        lemma_half_fields(data);
    }
    ((data >> 7) & 0x1f) as u8
}

/// Bits 6..2: a full register field.
#[verifier::when_used_as_spec(spec_rc2)]
pub fn rc2(data: u16) -> (r: u8)
    ensures
        r == spec_rc2(data),
        r < 32,
{
    proof {
        lemma_half_fields(data);
    }
    ((data >> 2) & 0x1f) as u8
}

impl insn_t {
    /// Reads two three-bit register fields into `rd` and `rs2`.
    pub fn insn_catype_read(&mut self, data: u16)
        ensures
            *final(self) == (insn_t {
                rd: (spec_rp1(data) + 8) as u8,
                rs2: (spec_rp2(data) + 8) as u8,
                rvc: true,
                ..*old(self)
            }),
    {
        self.rd = rp1(data) + 8;
        self.rs2 = rp2(data) + 8;
        self.rvc = true;
    }

    /// Reads two full register fields into `rs1` and `rs2`.
    pub fn insn_crtype_read(&mut self, data: u16)
        ensures
            *final(self) == (insn_t {
                rs1: spec_rc1(data),
                rs2: spec_rc2(data),
                rvc: true,
                ..*old(self)
            }),
    {
        self.rs1 = rc1(data);
        self.rs2 = rc2(data);
        self.rvc = true;
    }

    /// Reads a signed 6-bit immediate and a full `rd`.
    pub fn insn_citype_read(&mut self, data: u16)
        ensures
            *final(self) == (insn_t {
                imm: imm_ci(data),
                rd: spec_rc1(data),
                rvc: true,
                ..*old(self)
            }),
    {
        let imm40: u16 = (data >> 2) & 0x1f;
        let imm5: u16 = (data >> 12) & 0x1;
        let raw: u16 = (imm5 << 5) | imm40;
        proof {
            lemma_half_fields(data);
            lemma_sign_shift(raw as u32);
        }
        self.imm = (#[verifier::truncate] (((raw as u32) << 26) as i32)) >> 26;
        self.rd = rc1(data);
        self.rvc = true;
    }

    /// Reads the unsigned offset of a stack-relative doubleword load and a
    /// full `rd`.
    pub fn insn_citype_read2(&mut self, data: u16)
        ensures
            *final(self) == (insn_t {
                imm: imm_ci2(data),
                rd: spec_rc1(data),
                rvc: true,
                ..*old(self)
            }),
    {
        let imm86: u16 = (data >> 2) & 0x7;
        let imm43: u16 = (data >> 5) & 0x3;
        let imm5: u16 = (data >> 12) & 0x1;

        let imm: u16 = (imm86 << 6) | (imm43 << 3) | (imm5 << 5);

        self.imm = imm as i32;
        self.rd = rc1(data);
        self.rvc = true;
    }

    /// Reads the signed 10-bit stack pointer adjustment and a full `rd`.
    pub fn insn_citype_read3(&mut self, data: u16)
        ensures
            *final(self) == (insn_t {
                imm: imm_ci3(data),
                rd: spec_rc1(data),
                rvc: true,
                ..*old(self)
            }),
    {
        let imm5: u16 = (data >> 2) & 0x1;
        let imm87: u16 = (data >> 3) & 0x3;
        let imm6: u16 = (data >> 5) & 0x1;
        let imm4: u16 = (data >> 6) & 0x1;
        let imm9: u16 = (data >> 12) & 0x1;

        let raw: u16 = (imm5 << 5) | (imm87 << 7) | (imm6 << 6) | (imm4 << 4) | (imm9 << 9);
        proof {
            lemma_half_fields(data);
            lemma_sign_shift(raw as u32);
        }
        self.imm = (#[verifier::truncate] (((raw as u32) << 22) as i32)) >> 22;
        self.rd = rc1(data);
        self.rvc = true;
    }

    /// Reads the unsigned offset of a stack-relative word load and a full
    /// `rd`.
    pub fn insn_citype_read4(&mut self, data: u16)
        ensures
            *final(self) == (insn_t {
                imm: imm_ci4(data),
                rd: spec_rc1(data),
                rvc: true,
                ..*old(self)
            }),
    {
        let imm5: u16 = (data >> 12) & 0x1;
        let imm42: u16 = (data >> 4) & 0x7;
        let imm76: u16 = (data >> 2) & 0x3;

        let imm: u16 = (imm5 << 5) | (imm42 << 2) | (imm76 << 6);

        self.imm = imm as i32;
        self.rd = rc1(data);
        self.rvc = true;
    }

    /// Reads the signed 18-bit upper immediate and a full `rd`.
    pub fn insn_citype_read5(&mut self, data: u16)
        ensures
            *final(self) == (insn_t {
                imm: imm_ci5(data),
                rd: spec_rc1(data),
                rvc: true,
                ..*old(self)
            }),
    {
        let imm1612: u16 = (data >> 2) & 0x1f;
        let imm17: u16 = (data >> 12) & 0x1;

        let raw: u32 = ((imm1612 as u32) << 12) | ((imm17 as u32) << 17);
        proof {
            lemma_half_fields(data);
            lemma_sign_shift(raw);
        }
        self.imm = (#[verifier::truncate] ((raw << 14) as i32)) >> 14;
        self.rd = rc1(data);
        self.rvc = true;
    }

    /// Reads the signed 9-bit branch offset and a three-bit `rs1`.
    pub fn insn_cbtype_read(&mut self, data: u16)
        ensures
            *final(self) == (insn_t {
                imm: imm_cb(data),
                rs1: (spec_rp1(data) + 8) as u8,
                rvc: true,
                ..*old(self)
            }),
    {
        let imm5: u16 = (data >> 2) & 0x1;
        let imm21: u16 = (data >> 3) & 0x3;
        let imm76: u16 = (data >> 5) & 0x3;
        let imm43: u16 = (data >> 10) & 0x3;
        let imm8: u16 = (data >> 12) & 0x1;

        let raw: u16 = (imm8 << 8) | (imm76 << 6) | (imm5 << 5) | (imm43 << 3) | (imm21 << 1);
        proof {
            lemma_half_fields(data);
            lemma_sign_shift(raw as u32);
        }
        self.imm = (#[verifier::truncate] (((raw as u32) << 23) as i32)) >> 23;
        self.rs1 = rp1(data) + 8;
        self.rvc = true;
    }

    /// Reads a signed 6-bit immediate and a three-bit `rd`.
    pub fn insn_cbtype_read2(&mut self, data: u16)
        ensures
            *final(self) == (insn_t {
                imm: imm_ci(data),
                rd: (spec_rp1(data) + 8) as u8,
                rvc: true,
                ..*old(self)
            }),
    {
        let imm40: u16 = (data >> 2) & 0x1f;
        let imm5: u16 = (data >> 12) & 0x1;
        let raw: u16 = (imm5 << 5) | imm40;
        proof {
            lemma_half_fields(data);
            lemma_sign_shift(raw as u32);
        }
        self.imm = (#[verifier::truncate] (((raw as u32) << 26) as i32)) >> 26;
        self.rd = rp1(data) + 8;
        self.rvc = true;
    }

    /// Reads the unsigned offset of a doubleword store and two three-bit
    /// registers, `rs1` and `rs2`.
    pub fn insn_cstype_read(&mut self, data: u16)
        ensures
            *final(self) == (insn_t {
                imm: imm_cs(data),
                rs1: (spec_rp1(data) + 8) as u8,
                rs2: (spec_rp2(data) + 8) as u8,
                rvc: true,
                ..*old(self)
            }),
    {
        let imm76: u16 = (data >> 5) & 0x3;
        let imm53: u16 = (data >> 10) & 0x7;

        let imm: u16 = (imm76 << 6) | (imm53 << 3);

        self.imm = imm as i32;
        self.rs1 = rp1(data) + 8;
        self.rs2 = rp2(data) + 8;
        self.rvc = true;
    }

    /// Reads the unsigned offset of a word store and two three-bit
    /// registers, `rs1` and `rs2`.
    pub fn insn_cstype_read2(&mut self, data: u16)
        ensures
            *final(self) == (insn_t {
                imm: imm_cs2(data),
                rs1: (spec_rp1(data) + 8) as u8,
                rs2: (spec_rp2(data) + 8) as u8,
                rvc: true,
                ..*old(self)
            }),
    {
        let imm6: u16 = (data >> 5) & 0x1;
        let imm2: u16 = (data >> 6) & 0x1;
        let imm53: u16 = (data >> 10) & 0x7;

        let imm: u16 = (imm6 << 6) | (imm2 << 2) | (imm53 << 3);

        self.imm = imm as i32;
        self.rs1 = rp1(data) + 8;
        self.rs2 = rp2(data) + 8;
        self.rvc = true;
    }

    /// Reads the signed 12-bit jump offset.
    pub fn insn_cjtype_read(&mut self, data: u16)
        ensures
            *final(self) == (insn_t { imm: imm_cj(data), rvc: true, ..*old(self) }),
    {
        let imm5: u16 = (data >> 2) & 0x1;
        let imm31: u16 = (data >> 3) & 0x7;
        let imm7: u16 = (data >> 6) & 0x1;
        let imm6: u16 = (data >> 7) & 0x1;
        let imm10: u16 = (data >> 8) & 0x1;
        let imm98: u16 = (data >> 9) & 0x3;
        let imm4: u16 = (data >> 11) & 0x1;
        let imm11: u16 = (data >> 12) & 0x1;

        let raw: u16 = (imm5 << 5) | (imm31 << 1) | (imm7 << 7) | (imm6 << 6) | (imm10 << 10) | (imm98
            << 8) | (imm4 << 4) | (imm11 << 11);
        proof {
            lemma_half_fields(data);
            lemma_sign_shift(raw as u32);
        }
        self.imm = (#[verifier::truncate] (((raw as u32) << 20) as i32)) >> 20;
        self.rvc = true;
    }

    /// Reads the unsigned offset of a word load and two three-bit registers,
    /// `rs1` and `rd`.
    pub fn insn_cltype_read(&mut self, data: u16)
        ensures
            *final(self) == (insn_t {
                imm: imm_cs2(data),
                rs1: (spec_rp1(data) + 8) as u8,
                rd: (spec_rp2(data) + 8) as u8,
                rvc: true,
                ..*old(self)
            }),
    {
        let imm6: u16 = (data >> 5) & 0x1;
        let imm2: u16 = (data >> 6) & 0x1;
        let imm53: u16 = (data >> 10) & 0x7;

        let imm: u16 = (imm6 << 6) | (imm2 << 2) | (imm53 << 3);

        self.imm = imm as i32;
        self.rs1 = rp1(data) + 8;
        self.rd = rp2(data) + 8;
        self.rvc = true;
    }

    /// Reads the unsigned offset of a doubleword load and two three-bit
    /// registers, `rs1` and `rd`.
    pub fn insn_cltype_read2(&mut self, data: u16)
        ensures
            *final(self) == (insn_t {
                imm: imm_cs(data),
                rs1: (spec_rp1(data) + 8) as u8,
                rd: (spec_rp2(data) + 8) as u8,
                rvc: true,
                ..*old(self)
            }),
    {
        let imm76: u16 = (data >> 5) & 0x3;
        let imm53: u16 = (data >> 10) & 0x7;

        let imm: u16 = (imm76 << 6) | (imm53 << 3);

        self.imm = imm as i32;
        self.rs1 = rp1(data) + 8;
        self.rd = rp2(data) + 8;
        self.rvc = true;
    }

    /// Reads the unsigned offset of a stack-relative doubleword store and a
    /// full `rs2`.
    pub fn insn_csstype_read(&mut self, data: u16)
        ensures
            *final(self) == (insn_t {
                imm: imm_css(data),
                rs2: spec_rc2(data),
                rvc: true,
                ..*old(self)
            }),
    {
        let imm86: u16 = (data >> 7) & 0x7;
        let imm53: u16 = (data >> 10) & 0x7;

        let imm: u16 = (imm86 << 6) | (imm53 << 3);

        self.imm = imm as i32;
        self.rs2 = rc2(data);
        self.rvc = true;
    }

    /// Reads the unsigned offset of a stack-relative word store and a full
    /// `rs2`.
    pub fn insn_csstype_read2(&mut self, data: u16)
        ensures
            *final(self) == (insn_t {
                imm: imm_css2(data),
                rs2: spec_rc2(data),
                rvc: true,
                ..*old(self)
            }),
    {
        let imm76: u16 = (data >> 7) & 0x3;
        let imm52: u16 = (data >> 9) & 0xf;

        let imm: u16 = (imm76 << 6) | (imm52 << 2);

        self.imm = imm as i32;
        self.rs2 = rc2(data);
        self.rvc = true;
    }

    /// Reads the unsigned amount that is added to the stack pointer to form
    /// an address, and a three-bit `rd`.
    pub fn insn_ciwtype_read(&mut self, data: u16)
        ensures
            *final(self) == (insn_t {
                imm: imm_ciw(data),
                rd: (spec_rp2(data) + 8) as u8,
                rvc: true,
                ..*old(self)
            }),
    {
        let imm3: u16 = (data >> 5) & 0x1;
        let imm2: u16 = (data >> 6) & 0x1;
        let imm96: u16 = (data >> 7) & 0xf;
        let imm54: u16 = (data >> 11) & 0x3;

        let imm: u16 = (imm3 << 3) | (imm2 << 2) | (imm96 << 6) | (imm54 << 4);

        self.imm = imm as i32;
        self.rd = rp2(data) + 8;
        self.rvc = true;
    }
}

} // verus!
