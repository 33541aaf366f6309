//! The execution engine: what one instruction does to the hart and the
//! memory, one fetch-decode-execute cycle, and the run of cycles up to the
//! end of a block.

use crate::alu::{
    advance_addr, alu_result, exec_alu, extend_imm, offset_addr, signed64, to_signed, wrap64,
};
use crate::decode::{decode_spec, insn_try_decode};
use crate::insn::{insn_t, insn_type_t};
use crate::machine::{arch_t, exit_reason_t, state_t};
use crate::mem::{guest_mem_t, window_t};
use crate::reg::{boxed, csr_t, merge_low_half, with_low_half};
use vstd::prelude::*;

verus! {

/// The kinds of instruction, by what executing one involves.
#[derive(Copy, Clone, Debug, PartialEq, Eq, Structural)]
pub enum class_t {
    /// Computes `rd` from `rs1` and `rs2`.
    alu_reg,
    /// Computes `rd` from `rs1` and the immediate.
    alu_imm,
    /// Computes `rd` from `pc` and the immediate.
    pc_upper,
    /// Loads `rd` from memory.
    load,
    /// Stores `rs2` to memory.
    store,
    /// Compares `rs1` and `rs2` and jumps if the comparison holds.
    branch,
    /// Jumps relative to `pc` and links.
    jump,
    /// Jumps relative to `rs1` and links.
    jump_reg,
    /// Calls the environment.
    env_call,
    /// Reads a control and status register.
    csr,
    /// Orders memory accesses: nothing to do on one hart.
    fence,
    /// Loads a floating-point register from memory.
    fp_load,
    /// Stores a floating-point register to memory.
    fp_store,
    /// Moves bits between the two register files.
    fp_move,
    /// Combines the magnitude of one floating-point register with a sign.
    fp_sign,
    /// Floating-point arithmetic, comparison, classification or conversion:
    /// the host computes the result.
    fp_host,
    /// No instruction.
    invalid,
}

/// Why an instruction was not executed.
#[derive(Copy, Clone, Debug, PartialEq, Eq, Structural)]
pub enum stop_t {
    /// No instruction is defined for this encoding.
    decode_error(u32),
    /// The instruction names a control and status register that is not
    /// implemented.
    unimplemented_csr(u16),
    /// The record holds no instruction.
    unimplemented_insn,
    /// The access at this guest address is not within the guest's memory.
    memory_fault(u64),
    /// The instruction is floating-point work for the host, which goes on
    /// with `float_operands` and `float_retire`.
    float_op(insn_t),
}

/// The kind of each instruction.
pub open spec fn spec_insn_class(t: insn_type_t) -> class_t {
    match t {
        insn_type_t::insn_add
        | insn_type_t::insn_sll
        | insn_type_t::insn_slt
        | insn_type_t::insn_sltu
        | insn_type_t::insn_xor
        | insn_type_t::insn_srl
        | insn_type_t::insn_or
        | insn_type_t::insn_and
        | insn_type_t::insn_mul
        | insn_type_t::insn_mulh
        | insn_type_t::insn_mulhsu
        | insn_type_t::insn_mulhu
        | insn_type_t::insn_div
        | insn_type_t::insn_divu
        | insn_type_t::insn_rem
        | insn_type_t::insn_remu
        | insn_type_t::insn_sub
        | insn_type_t::insn_sra
        | insn_type_t::insn_addw
        | insn_type_t::insn_sllw
        | insn_type_t::insn_srlw
        | insn_type_t::insn_mulw
        | insn_type_t::insn_divw
        | insn_type_t::insn_divuw
        | insn_type_t::insn_remw
        | insn_type_t::insn_remuw
        | insn_type_t::insn_subw
        | insn_type_t::insn_sraw => class_t::alu_reg,
        insn_type_t::insn_addi
        | insn_type_t::insn_slli
        | insn_type_t::insn_slti
        | insn_type_t::insn_sltiu
        | insn_type_t::insn_xori
        | insn_type_t::insn_srli
        | insn_type_t::insn_srai
        | insn_type_t::insn_ori
        | insn_type_t::insn_andi
        | insn_type_t::insn_addiw
        | insn_type_t::insn_slliw
        | insn_type_t::insn_srliw
        | insn_type_t::insn_sraiw
        | insn_type_t::insn_lui => class_t::alu_imm,
        insn_type_t::insn_auipc => class_t::pc_upper,
        insn_type_t::insn_lb
        | insn_type_t::insn_lh
        | insn_type_t::insn_lw
        | insn_type_t::insn_ld
        | insn_type_t::insn_lbu
        | insn_type_t::insn_lhu
        | insn_type_t::insn_lwu => class_t::load,
        insn_type_t::insn_sb
        | insn_type_t::insn_sh
        | insn_type_t::insn_sw
        | insn_type_t::insn_sd => class_t::store,
        insn_type_t::insn_beq
        | insn_type_t::insn_bne
        | insn_type_t::insn_blt
        | insn_type_t::insn_bge
        | insn_type_t::insn_bltu
        | insn_type_t::insn_bgeu => class_t::branch,
        insn_type_t::insn_jal => class_t::jump,
        insn_type_t::insn_jalr => class_t::jump_reg,
        insn_type_t::insn_ecall => class_t::env_call,
        insn_type_t::insn_csrrc
        | insn_type_t::insn_csrrci
        | insn_type_t::insn_csrrs
        | insn_type_t::insn_csrrsi
        | insn_type_t::insn_csrrw
        | insn_type_t::insn_csrrwi => class_t::csr,
        insn_type_t::insn_fence
        | insn_type_t::insn_fence_i => class_t::fence,
        insn_type_t::insn_flw
        | insn_type_t::insn_fld => class_t::fp_load,
        insn_type_t::insn_fsw
        | insn_type_t::insn_fsd => class_t::fp_store,
        insn_type_t::insn_fmv_x_w
        | insn_type_t::insn_fmv_w_x
        | insn_type_t::insn_fmv_x_d
        | insn_type_t::insn_fmv_d_x => class_t::fp_move,
        insn_type_t::insn_fsgnj_s
        | insn_type_t::insn_fsgnjn_s
        | insn_type_t::insn_fsgnjx_s
        | insn_type_t::insn_fsgnj_d
        | insn_type_t::insn_fsgnjn_d
        | insn_type_t::insn_fsgnjx_d => class_t::fp_sign,
        insn_type_t::insn_fmadd_s
        | insn_type_t::insn_fmsub_s
        | insn_type_t::insn_fnmsub_s
        | insn_type_t::insn_fnmadd_s
        | insn_type_t::insn_fadd_s
        | insn_type_t::insn_fsub_s
        | insn_type_t::insn_fmul_s
        | insn_type_t::insn_fdiv_s
        | insn_type_t::insn_fsqrt_s
        | insn_type_t::insn_fmin_s
        | insn_type_t::insn_fmax_s
        | insn_type_t::insn_fcvt_w_s
        | insn_type_t::insn_fcvt_wu_s
        | insn_type_t::insn_feq_s
        | insn_type_t::insn_flt_s
        | insn_type_t::insn_fle_s
        | insn_type_t::insn_fclass_s
        | insn_type_t::insn_fcvt_s_w
        | insn_type_t::insn_fcvt_s_wu
        | insn_type_t::insn_fcvt_l_s
        | insn_type_t::insn_fcvt_lu_s
        | insn_type_t::insn_fcvt_s_l
        | insn_type_t::insn_fcvt_s_lu
        | insn_type_t::insn_fmadd_d
        | insn_type_t::insn_fmsub_d
        | insn_type_t::insn_fnmsub_d
        | insn_type_t::insn_fnmadd_d
        | insn_type_t::insn_fadd_d
        | insn_type_t::insn_fsub_d
        | insn_type_t::insn_fmul_d
        | insn_type_t::insn_fdiv_d
        | insn_type_t::insn_fsqrt_d
        | insn_type_t::insn_fmin_d
        | insn_type_t::insn_fmax_d
        | insn_type_t::insn_fcvt_s_d
        | insn_type_t::insn_fcvt_d_s
        | insn_type_t::insn_feq_d
        | insn_type_t::insn_flt_d
        | insn_type_t::insn_fle_d
        | insn_type_t::insn_fclass_d
        | insn_type_t::insn_fcvt_w_d
        | insn_type_t::insn_fcvt_wu_d
        | insn_type_t::insn_fcvt_d_w
        | insn_type_t::insn_fcvt_d_wu
        | insn_type_t::insn_fcvt_l_d
        | insn_type_t::insn_fcvt_lu_d
        | insn_type_t::insn_fcvt_d_l
        | insn_type_t::insn_fcvt_d_lu => class_t::fp_host,
        insn_type_t::num_insns => class_t::invalid,
    }
}

/// The kind of each instruction.
#[verifier::when_used_as_spec(spec_insn_class)]
pub fn insn_class(t: insn_type_t) -> (r: class_t)
    ensures
        r == spec_insn_class(t),
{
    match t {
        insn_type_t::insn_add
        | insn_type_t::insn_sll
        | insn_type_t::insn_slt
        | insn_type_t::insn_sltu
        | insn_type_t::insn_xor
        | insn_type_t::insn_srl
        | insn_type_t::insn_or
        | insn_type_t::insn_and
        | insn_type_t::insn_mul
        | insn_type_t::insn_mulh
        | insn_type_t::insn_mulhsu
        | insn_type_t::insn_mulhu
        | insn_type_t::insn_div
        | insn_type_t::insn_divu
        | insn_type_t::insn_rem
        | insn_type_t::insn_remu
        | insn_type_t::insn_sub
        | insn_type_t::insn_sra
        | insn_type_t::insn_addw
        | insn_type_t::insn_sllw
        | insn_type_t::insn_srlw
        | insn_type_t::insn_mulw
        | insn_type_t::insn_divw
        | insn_type_t::insn_divuw
        | insn_type_t::insn_remw
        | insn_type_t::insn_remuw
        | insn_type_t::insn_subw
        | insn_type_t::insn_sraw => class_t::alu_reg,
        insn_type_t::insn_addi
        | insn_type_t::insn_slli
        | insn_type_t::insn_slti
        | insn_type_t::insn_sltiu
        | insn_type_t::insn_xori
        | insn_type_t::insn_srli
        | insn_type_t::insn_srai
        | insn_type_t::insn_ori
        | insn_type_t::insn_andi
        | insn_type_t::insn_addiw
        | insn_type_t::insn_slliw
        | insn_type_t::insn_srliw
        | insn_type_t::insn_sraiw
        | insn_type_t::insn_lui => class_t::alu_imm,
        insn_type_t::insn_auipc => class_t::pc_upper,
        insn_type_t::insn_lb
        | insn_type_t::insn_lh
        | insn_type_t::insn_lw
        | insn_type_t::insn_ld
        | insn_type_t::insn_lbu
        | insn_type_t::insn_lhu
        | insn_type_t::insn_lwu => class_t::load,
        insn_type_t::insn_sb
        | insn_type_t::insn_sh
        | insn_type_t::insn_sw
        | insn_type_t::insn_sd => class_t::store,
        insn_type_t::insn_beq
        | insn_type_t::insn_bne
        | insn_type_t::insn_blt
        | insn_type_t::insn_bge
        | insn_type_t::insn_bltu
        | insn_type_t::insn_bgeu => class_t::branch,
        insn_type_t::insn_jal => class_t::jump,
        insn_type_t::insn_jalr => class_t::jump_reg,
        insn_type_t::insn_ecall => class_t::env_call,
        insn_type_t::insn_csrrc
        | insn_type_t::insn_csrrci
        | insn_type_t::insn_csrrs
        | insn_type_t::insn_csrrsi
        | insn_type_t::insn_csrrw
        | insn_type_t::insn_csrrwi => class_t::csr,
        insn_type_t::insn_fence
        | insn_type_t::insn_fence_i => class_t::fence,
        insn_type_t::insn_flw
        | insn_type_t::insn_fld => class_t::fp_load,
        insn_type_t::insn_fsw
        | insn_type_t::insn_fsd => class_t::fp_store,
        insn_type_t::insn_fmv_x_w
        | insn_type_t::insn_fmv_w_x
        | insn_type_t::insn_fmv_x_d
        | insn_type_t::insn_fmv_d_x => class_t::fp_move,
        insn_type_t::insn_fsgnj_s
        | insn_type_t::insn_fsgnjn_s
        | insn_type_t::insn_fsgnjx_s
        | insn_type_t::insn_fsgnj_d
        | insn_type_t::insn_fsgnjn_d
        | insn_type_t::insn_fsgnjx_d => class_t::fp_sign,
        insn_type_t::insn_fmadd_s
        | insn_type_t::insn_fmsub_s
        | insn_type_t::insn_fnmsub_s
        | insn_type_t::insn_fnmadd_s
        | insn_type_t::insn_fadd_s
        | insn_type_t::insn_fsub_s
        | insn_type_t::insn_fmul_s
        | insn_type_t::insn_fdiv_s
        | insn_type_t::insn_fsqrt_s
        | insn_type_t::insn_fmin_s
        | insn_type_t::insn_fmax_s
        | insn_type_t::insn_fcvt_w_s
        | insn_type_t::insn_fcvt_wu_s
        | insn_type_t::insn_feq_s
        | insn_type_t::insn_flt_s
        | insn_type_t::insn_fle_s
        | insn_type_t::insn_fclass_s
        | insn_type_t::insn_fcvt_s_w
        | insn_type_t::insn_fcvt_s_wu
        | insn_type_t::insn_fcvt_l_s
        | insn_type_t::insn_fcvt_lu_s
        | insn_type_t::insn_fcvt_s_l
        | insn_type_t::insn_fcvt_s_lu
        | insn_type_t::insn_fmadd_d
        | insn_type_t::insn_fmsub_d
        | insn_type_t::insn_fnmsub_d
        | insn_type_t::insn_fnmadd_d
        | insn_type_t::insn_fadd_d
        | insn_type_t::insn_fsub_d
        | insn_type_t::insn_fmul_d
        | insn_type_t::insn_fdiv_d
        | insn_type_t::insn_fsqrt_d
        | insn_type_t::insn_fmin_d
        | insn_type_t::insn_fmax_d
        | insn_type_t::insn_fcvt_s_d
        | insn_type_t::insn_fcvt_d_s
        | insn_type_t::insn_feq_d
        | insn_type_t::insn_flt_d
        | insn_type_t::insn_fle_d
        | insn_type_t::insn_fclass_d
        | insn_type_t::insn_fcvt_w_d
        | insn_type_t::insn_fcvt_wu_d
        | insn_type_t::insn_fcvt_d_w
        | insn_type_t::insn_fcvt_d_wu
        | insn_type_t::insn_fcvt_l_d
        | insn_type_t::insn_fcvt_lu_d
        | insn_type_t::insn_fcvt_d_l
        | insn_type_t::insn_fcvt_d_lu => class_t::fp_host,
        insn_type_t::num_insns => class_t::invalid,
    }
}

/// How many bytes a load or store moves.
pub open spec fn spec_access_width(t: insn_type_t) -> usize {
    match t {
        insn_type_t::insn_lb | insn_type_t::insn_lbu | insn_type_t::insn_sb => 1,
        insn_type_t::insn_lh | insn_type_t::insn_lhu | insn_type_t::insn_sh => 2,
        insn_type_t::insn_lw
        | insn_type_t::insn_lwu
        | insn_type_t::insn_sw
        | insn_type_t::insn_flw
        | insn_type_t::insn_fsw => 4,
        _ => 8,
    }
}

/// How many bytes a load or store moves.
#[verifier::when_used_as_spec(spec_access_width)]
pub fn access_width(t: insn_type_t) -> (r: usize)
    ensures
        r == spec_access_width(t),
        r == 1 || r == 2 || r == 4 || r == 8,
{
    match t {
        insn_type_t::insn_lb | insn_type_t::insn_lbu | insn_type_t::insn_sb => 1,
        insn_type_t::insn_lh | insn_type_t::insn_lhu | insn_type_t::insn_sh => 2,
        insn_type_t::insn_lw
        | insn_type_t::insn_lwu
        | insn_type_t::insn_sw
        | insn_type_t::insn_flw
        | insn_type_t::insn_fsw => 4,
        _ => 8,
    }
}

/// The value `v` of `n` bytes read as a two's complement number and
/// extended to a register value.
pub open spec fn extend_bytes(v: u64, n: int) -> u64 {
    if n == 1 {
        wrap64(if v >= 0x80 { v - 0x100 } else { v as int })
    } else if n == 2 {
        wrap64(if v >= 0x8000 { v - 0x1_0000 } else { v as int })
    } else if n == 4 {
        wrap64(if v >= 0x8000_0000 { v - 0x1_0000_0000 } else { v as int })
    } else {
        v
    }
}

/// What a load leaves in `rd` when it has read `v` from memory: the value
/// sign-extended, or as it is for the loads that extend with zeros.
pub open spec fn loaded(t: insn_type_t, v: u64) -> u64 {
    match t {
        insn_type_t::insn_lbu | insn_type_t::insn_lhu | insn_type_t::insn_lwu => v,
        _ => extend_bytes(v, spec_access_width(t) as int),
    }
}

/// Whether a branch is taken.
pub open spec fn branch_taken(t: insn_type_t, a: u64, b: u64) -> bool {
    match t {
        insn_type_t::insn_beq => a == b,
        insn_type_t::insn_bne => a != b,
        insn_type_t::insn_blt => signed64(a) < signed64(b),
        insn_type_t::insn_bge => signed64(a) >= signed64(b),
        insn_type_t::insn_bltu => a < b,
        insn_type_t::insn_bgeu => a >= b,
        _ => false,
    }
}

/// The bits below the sign bit of weight `top` taken from `a`, under a sign
/// bit made from that of `b`: the same, the opposite, or none at all.
pub open spec fn inject(t: insn_type_t, a: int, b: int, top: int) -> int {
    let sign_b: bool = b % (2 * top) >= top;
    let sign: bool = match t {
        insn_type_t::insn_fsgnj_s | insn_type_t::insn_fsgnj_d => sign_b,
        insn_type_t::insn_fsgnjn_s | insn_type_t::insn_fsgnjn_d => !sign_b,
        _ => false,
    };
    a % top + (if sign { top } else { 0 })
}

/// What a sign injection leaves in a register that held `held`: a double,
/// or a single in the low half.
pub open spec fn sign_injected(t: insn_type_t, held: u64, a: u64, b: u64) -> u64 {
    match t {
        insn_type_t::insn_fsgnj_s | insn_type_t::insn_fsgnjn_s | insn_type_t::insn_fsgnjx_s => with_low_half(
            held,
            inject(t, a as int, b as int, 0x8000_0000) as u32,
        ),
        _ => inject(t, a as int, b as int, 0x8000_0000_0000_0000) as u64,
    }
}

/// How many bytes the encoding of `insn` takes.
pub open spec fn insn_size(insn: insn_t) -> int {
    if insn.rvc {
        2
    } else {
        4
    }
}

/// The address that `rs1` and the immediate of `insn` name in the state `a`.
pub open spec fn through(a: arch_t, insn: insn_t) -> u64 {
    wrap64(a.gp[insn.rs1 as int] + insn.imm)
}

/// The address `addr` without its lowest bit.
pub open spec fn even(addr: u64) -> u64 {
    (addr - addr % 2) as u64
}

/// What executing one instruction leaves behind: the state, the memory,
/// and whether the block ends here.
pub struct effect_t {
    pub arch: arch_t,
    pub mem: window_t,
    pub cont: bool,
}

/// An instruction that has executed: register 0 reads zero again.
pub open spec fn done(arch: arch_t, mem: window_t, cont: bool) -> Result<effect_t, stop_t> {
    Ok(effect_t { arch: arch.pin_zero(), mem, cont })
}

/// What executing `insn` does to the state `a` over the memory `m`, or why
/// it is not executed. Nothing changes where it is not.
///
/// A jump through a register links first and reads its register then, so a
/// jump through the register that it links in goes on from the link value.
/// A single that is written into a floating-point register leaves the high
/// half of the register as it is; only a load of a single sets it. A single
/// that is moved into a general-purpose register is extended with zeros.
pub open spec fn step_spec(a: arch_t, m: window_t, insn: insn_t) -> Result<effect_t, stop_t> {
    let t = insn.type_;
    let rd = insn.rd as int;
    let x1 = a.gp[insn.rs1 as int];
    let x2 = a.gp[insn.rs2 as int];
    let f1 = a.fp[insn.rs1 as int].v;
    let f2 = a.fp[insn.rs2 as int].v;
    let imm = wrap64(insn.imm as int);
    let addr = wrap64(x1 + insn.imm);
    let width = spec_access_width(t) as int;
    let target = wrap64(a.pc + insn.imm);
    match spec_insn_class(t) {
        class_t::alu_reg => done(a.set_gp(rd, alu_result(t, x1, x2)), m, insn.cont),
        class_t::alu_imm => done(a.set_gp(rd, alu_result(t, x1, imm)), m, insn.cont),
        class_t::pc_upper => done(a.set_gp(rd, target), m, insn.cont),
        class_t::load => match m.read(addr, width) {
            Some(v) => done(a.set_gp(rd, loaded(t, v)), m, insn.cont),
            None => Err(stop_t::memory_fault(addr)),
        },
        class_t::store => match m.write(addr, width, x2) {
            Some(m2) => done(a, m2, insn.cont),
            None => Err(stop_t::memory_fault(addr)),
        },
        class_t::branch => if branch_taken(t, x1, x2) {
            done(
                arch_t {
                    pc: target,
                    reenter_pc: target,
                    exit_reason: exit_reason_t::direct_branch,
                    ..a
                },
                m,
                true,
            )
        } else {
            done(a, m, insn.cont)
        },
        class_t::jump => done(
            arch_t {
                pc: target,
                reenter_pc: target,
                exit_reason: exit_reason_t::direct_branch,
                ..a.set_gp(rd, wrap64(a.pc + insn_size(insn)))
            },
            m,
            insn.cont,
        ),
        class_t::jump_reg => done(
            arch_t {
                reenter_pc: even(through(a.set_gp(rd, wrap64(a.pc + insn_size(insn))), insn)),
                exit_reason: exit_reason_t::indirect_branch,
                ..a.set_gp(rd, wrap64(a.pc + insn_size(insn)))
            },
            m,
            insn.cont,
        ),
        class_t::env_call => done(
            arch_t { exit_reason: exit_reason_t::ecall, reenter_pc: wrap64(a.pc + 4), ..a },
            m,
            insn.cont,
        ),
        class_t::csr => if csr_t::spec_from_index(insn.csr) is Some {
            done(a.set_gp(rd, 0), m, insn.cont)
        } else {
            Err(stop_t::unimplemented_csr(insn.csr))
        },
        class_t::fence => done(a, m, insn.cont),
        class_t::fp_load => match m.read(addr, width) {
            Some(v) => done(
                a.set_fp(rd, if t == insn_type_t::insn_flw { boxed(v as u32) } else { v }),
                m,
                insn.cont,
            ),
            None => Err(stop_t::memory_fault(addr)),
        },
        class_t::fp_store => match m.write(addr, width, f2) {
            Some(m2) => done(a, m2, insn.cont),
            None => Err(stop_t::memory_fault(addr)),
        },
        class_t::fp_move => match t {
            insn_type_t::insn_fmv_x_w => done(
                a.set_gp(rd, (f1 % 0x1_0000_0000) as u64),
                m,
                insn.cont,
            ),
            insn_type_t::insn_fmv_w_x => done(
                a.set_fp(rd, with_low_half(a.fp[rd].v, (x1 % 0x1_0000_0000) as u32)),
                m,
                insn.cont,
            ),
            insn_type_t::insn_fmv_x_d => done(a.set_gp(rd, f1), m, insn.cont),
            _ => done(a.set_fp(rd, x1), m, insn.cont),
        },
        class_t::fp_sign => done(
            a.set_fp(rd, sign_injected(t, a.fp[rd].v, f1, f2)),
            m,
            insn.cont,
        ),
        class_t::fp_host => Err(stop_t::float_op(insn)),
        class_t::invalid => Err(stop_t::unimplemented_insn),
    }
}

/// What a load leaves in `rd` when it has read `v` from memory.
pub fn load_extend(t: insn_type_t, v: u64) -> (r: u64)
    ensures
        r == loaded(t, v),
{
    match t {
        insn_type_t::insn_lbu | insn_type_t::insn_lhu | insn_type_t::insn_lwu => v,
        _ => extend(v, access_width(t)),
    }
}

/// Reads the `n` bytes wide value `v` as a two's complement number and
/// extends it to a register value.
pub fn extend(v: u64, n: usize) -> (r: u64)
    ensures
        r == extend_bytes(v, n as int),
{
    if n == 1 {
        if v >= 0x80 {
            v.wrapping_sub(0x100)
        } else {
            v
        }
    } else if n == 2 {
        if v >= 0x8000 {
            v.wrapping_sub(0x1_0000)
        } else {
            v
        }
    } else if n == 4 {
        if v >= 0x8000_0000 {
            v.wrapping_sub(0x1_0000_0000)
        } else {
            v
        }
    } else {
        v
    }
}

/// Decides whether the branch `t` over the register values `a` and `b` is
/// taken.
pub fn func_branch(t: insn_type_t, a: u64, b: u64) -> (r: bool)
    ensures
        r == branch_taken(t, a, b),
{
    match t {
        insn_type_t::insn_beq => a == b,
        insn_type_t::insn_bne => a != b,
        insn_type_t::insn_blt => to_signed(a) < to_signed(b),
        insn_type_t::insn_bge => to_signed(a) >= to_signed(b),
        insn_type_t::insn_bltu => a < b,
        insn_type_t::insn_bgeu => a >= b,
        _ => false,
    }
}

/// Sign injection on the bits of two floating-point registers, into a
/// register that holds `held`.
pub fn func_fsgnj(t: insn_type_t, held: u64, a: u64, b: u64) -> (r: u64)
    ensures
        r == sign_injected(t, held, a, b),
{
    match t {
        insn_type_t::insn_fsgnj_s | insn_type_t::insn_fsgnjn_s | insn_type_t::insn_fsgnjx_s => {
            let sign: bool = match t {
                insn_type_t::insn_fsgnj_s => b % 0x1_0000_0000 >= 0x8000_0000,
                insn_type_t::insn_fsgnjn_s => b % 0x1_0000_0000 < 0x8000_0000,
                _ => false,
            };
            let low: u64 = a % 0x8000_0000 + (if sign {
                0x8000_0000
            } else {
                0
            });
            merge_low_half(held, low as u32)
        },
        _ => {
            let sign: bool = match t {
                insn_type_t::insn_fsgnj_d => b >= 0x8000_0000_0000_0000,
                insn_type_t::insn_fsgnjn_d => b < 0x8000_0000_0000_0000,
                _ => false,
            };
            let low: u64 = a % 0x8000_0000_0000_0000;
            assert((b as int) % (2 * 0x8000_0000_0000_0000int) == b as int);
            if sign {
                low + 0x8000_0000_0000_0000
            } else {
                low
            }
        },
    }
}

/// `r`, `post`, `post_mem` and `insn1` are what executing `insn0` in the
/// state `pre` over the memory `pre_mem` gives: on success the effect of the
/// instruction, with the record changed in `cont` alone; else the reason,
/// and nothing changed.
pub open spec fn stepped(
    pre: arch_t,
    pre_mem: window_t,
    insn0: insn_t,
    r: Result<(), stop_t>,
    post: arch_t,
    post_mem: window_t,
    insn1: insn_t,
) -> bool {
    match r {
        Ok(()) => step_spec(pre, pre_mem, insn0) == Ok::<effect_t, stop_t>(
            effect_t { arch: post, mem: post_mem, cont: insn1.cont },
        ) && insn1 == (insn_t { cont: insn1.cont, ..insn0 }),
        Err(e) => step_spec(pre, pre_mem, insn0) == Err::<effect_t, stop_t>(e) && post == pre
            && post_mem == pre_mem && insn1 == insn0,
    }
}

/// Executes an instruction that computes `rd` from registers, the
/// immediate and `pc`.
fn exec_arith(state: &mut state_t, insn: &insn_t)
    requires
        insn.wf(),
        spec_insn_class(insn.type_) == class_t::alu_reg || spec_insn_class(insn.type_)
            == class_t::alu_imm || spec_insn_class(insn.type_) == class_t::pc_upper,
    ensures
        forall|m: window_t| stepped(old(state)@, m, *insn, Ok(()), final(state)@, m, *insn),
        final(state).gp_regs@[0] == 0,
{
    let t = insn.type_;
    let x1: u64 = state.gp_regs[insn.rs1 as usize];
    let x2: u64 = state.gp_regs[insn.rs2 as usize];
    let imm: u64 = extend_imm(insn.imm);
    match insn_class(t) {
        class_t::alu_reg => state.set_gp(insn.rd, exec_alu(t, x1, x2)),
        class_t::alu_imm => state.set_gp(insn.rd, exec_alu(t, x1, imm)),
        _ => state.set_gp(insn.rd, offset_addr(state.pc, insn.imm)),
    }
    state.set_gp(0, 0);
}

/// Executes a load into either register file.
fn exec_load(state: &mut state_t, mem: &guest_mem_t, insn: &insn_t) -> (r: Result<(), stop_t>)
    requires
        insn.wf(),
        mem.wf(),
        spec_insn_class(insn.type_) == class_t::load || spec_insn_class(insn.type_)
            == class_t::fp_load,
    ensures
        stepped(old(state)@, mem@, *insn, r, final(state)@, mem@, *insn),
        r is Ok ==> final(state).gp_regs@[0] == 0,
{
    let t = insn.type_;
    let x1: u64 = state.gp_regs[insn.rs1 as usize];
    let addr: u64 = offset_addr(x1, insn.imm);
    match mem.load(addr, access_width(t)) {
        Some(v) => {
            match insn_class(t) {
                class_t::load => state.set_gp(insn.rd, load_extend(t, v)),
                _ => {
                    if access_width(t) == 4 {
                        state.set_fp(insn.rd, 0xffff_ffff_0000_0000 + v);
                    } else {
                        state.set_fp(insn.rd, v);
                    }
                },
            }
            state.set_gp(0, 0);
            Ok(())
        },
        None => Err(stop_t::memory_fault(addr)),
    }
}

/// Executes a store from either register file.
fn exec_store(state: &mut state_t, mem: &mut guest_mem_t, insn: &insn_t) -> (r: Result<
    (),
    stop_t,
>)
    requires
        insn.wf(),
        old(mem).wf(),
        spec_insn_class(insn.type_) == class_t::store || spec_insn_class(insn.type_)
            == class_t::fp_store,
    ensures
        final(mem).wf(),
        stepped(old(state)@, old(mem)@, *insn, r, final(state)@, final(mem)@, *insn),
        r is Ok ==> final(state).gp_regs@[0] == 0,
{
    let t = insn.type_;
    let x1: u64 = state.gp_regs[insn.rs1 as usize];
    let addr: u64 = offset_addr(x1, insn.imm);
    let value: u64 = match insn_class(t) {
        class_t::store => state.gp_regs[insn.rs2 as usize],
        _ => state.fp_regs[insn.rs2 as usize].v,
    };
    if mem.store(addr, access_width(t), value) {
        state.set_gp(0, 0);
        Ok(())
    } else {
        Err(stop_t::memory_fault(addr))
    }
}

/// Executes a branch, a jump or an environment call.
fn exec_control(state: &mut state_t, insn: &mut insn_t)
    requires
        old(insn).wf(),
        spec_insn_class(old(insn).type_) == class_t::branch || spec_insn_class(old(insn).type_)
            == class_t::jump || spec_insn_class(old(insn).type_) == class_t::jump_reg
            || spec_insn_class(old(insn).type_) == class_t::env_call,
    ensures
        forall|m: window_t|
            stepped(old(state)@, m, *old(insn), Ok(()), final(state)@, m, *final(insn)),
        final(state).gp_regs@[0] == 0,
{
    let t = insn.type_;
    let x1: u64 = state.gp_regs[insn.rs1 as usize];
    let x2: u64 = state.gp_regs[insn.rs2 as usize];
    let target: u64 = offset_addr(state.pc, insn.imm);
    let link: u64 = advance_addr(state.pc, if insn.rvc {
        2
    } else {
        4
    });
    match insn_class(t) {
        class_t::branch => {
            if func_branch(t, x1, x2) {
                state.pc = target;
                state.reenter_pc = target;
                state.exit_reason = exit_reason_t::direct_branch;
                insn.cont = true;
            }
        },
        class_t::jump => {
            state.set_gp(insn.rd, link);
            state.pc = target;
            state.reenter_pc = target;
            state.exit_reason = exit_reason_t::direct_branch;
        },
        class_t::jump_reg => {
            state.set_gp(insn.rd, link);
            let addr: u64 = offset_addr(state.gp_regs[insn.rs1 as usize], insn.imm);
            state.reenter_pc = addr - addr % 2;
            state.exit_reason = exit_reason_t::indirect_branch;
        },
        _ => {
            state.exit_reason = exit_reason_t::ecall;
            state.reenter_pc = advance_addr(state.pc, 4);
        },
    }
    state.set_gp(0, 0);
}

/// Executes a move between the register files or a sign injection.
fn exec_fp_bits(state: &mut state_t, insn: &insn_t)
    requires
        insn.wf(),
        spec_insn_class(insn.type_) == class_t::fp_move || spec_insn_class(insn.type_)
            == class_t::fp_sign,
    ensures
        forall|m: window_t| stepped(old(state)@, m, *insn, Ok(()), final(state)@, m, *insn),
        final(state).gp_regs@[0] == 0,
{
    let t = insn.type_;
    let x1: u64 = state.gp_regs[insn.rs1 as usize];
    let f1: u64 = state.fp_regs[insn.rs1 as usize].v;
    let f2: u64 = state.fp_regs[insn.rs2 as usize].v;
    let fd: u64 = state.fp_regs[insn.rd as usize].v;
    match t {
        insn_type_t::insn_fmv_x_w => state.set_gp(insn.rd, f1 % 0x1_0000_0000),
        insn_type_t::insn_fmv_w_x => state.set_fp(
            insn.rd,
            merge_low_half(fd, (x1 % 0x1_0000_0000) as u32),
        ),
        insn_type_t::insn_fmv_x_d => state.set_gp(insn.rd, f1),
        insn_type_t::insn_fmv_d_x => state.set_fp(insn.rd, x1),
        _ => state.set_fp(insn.rd, func_fsgnj(t, fd, f1, f2)),
    }
    state.set_gp(0, 0);
}

/// Executes a read of a control and status register: the three registers
/// that are implemented read as zero.
fn func_csr_handler(state: &mut state_t, insn: &insn_t) -> (r: Result<(), stop_t>)
    requires
        insn.wf(),
        spec_insn_class(insn.type_) == class_t::csr,
    ensures
        forall|m: window_t| stepped(old(state)@, m, *insn, r, final(state)@, m, *insn),
        r is Ok ==> final(state).gp_regs@[0] == 0,
{
    match csr_t::from_index(insn.csr) {
        Some(_) => {
            state.set_gp(insn.rd, 0);
            state.set_gp(0, 0);
            Ok(())
        },
        None => Err(stop_t::unimplemented_csr(insn.csr)),
    }
}

/// Executes one decoded instruction: applies it to the registers and the
/// memory, forces register 0 back to zero, and sets `cont` in the record if
/// a branch was taken. Where the instruction cannot be executed, nothing
/// changes and the result says why.
pub fn exec_insn(state: &mut state_t, mem: &mut guest_mem_t, insn: &mut insn_t) -> (r: Result<
    (),
    stop_t,
>)
    requires
        old(insn).wf(),
        old(mem).wf(),
    ensures
        final(mem).wf(),
        stepped(old(state)@, old(mem)@, *old(insn), r, final(state)@, final(mem)@, *final(insn)),
        r is Ok ==> final(state).gp_regs@[0] == 0,
{
    match insn_class(insn.type_) {
        class_t::alu_reg | class_t::alu_imm | class_t::pc_upper => {
            exec_arith(state, insn);
            Ok(())
        },
        class_t::load | class_t::fp_load => exec_load(state, mem, insn),
        class_t::store | class_t::fp_store => exec_store(state, mem, insn),
        class_t::branch | class_t::jump | class_t::jump_reg | class_t::env_call => {
            exec_control(state, insn);
            Ok(())
        },
        class_t::csr => func_csr_handler(state, insn),
        class_t::fence => {
            state.set_gp(0, 0);
            Ok(())
        },
        class_t::fp_move | class_t::fp_sign => {
            exec_fp_bits(state, insn);
            Ok(())
        },
        class_t::fp_host => Err(stop_t::float_op(*insn)),
        class_t::invalid => Err(stop_t::unimplemented_insn),
    }
}

/// Where the result of floating-point work goes.
#[derive(Copy, Clone, Debug, PartialEq, Eq, Structural)]
pub enum float_dest_t {
    /// Into the general-purpose register `rd`: a comparison, a
    /// classification, a conversion to an integer.
    gp,
    /// Into the floating-point register `rd`, as a single.
    single,
    /// Into the floating-point register `rd`, as a double.
    double,
}

/// The bits that floating-point work starts from.
#[derive(Copy, Clone, Debug, PartialEq, Eq, Structural)]
pub struct float_args_t {
    pub a: u64,
    pub b: u64,
    pub c: u64,
}

/// Where the result of the floating-point instruction `t` goes.
pub open spec fn spec_float_dest(t: insn_type_t) -> float_dest_t {
    match t {
        insn_type_t::insn_fcvt_w_s
        | insn_type_t::insn_fcvt_wu_s
        | insn_type_t::insn_feq_s
        | insn_type_t::insn_flt_s
        | insn_type_t::insn_fle_s
        | insn_type_t::insn_fclass_s
        | insn_type_t::insn_fcvt_l_s
        | insn_type_t::insn_fcvt_lu_s
        | insn_type_t::insn_feq_d
        | insn_type_t::insn_flt_d
        | insn_type_t::insn_fle_d
        | insn_type_t::insn_fclass_d
        | insn_type_t::insn_fcvt_w_d
        | insn_type_t::insn_fcvt_wu_d
        | insn_type_t::insn_fcvt_l_d
        | insn_type_t::insn_fcvt_lu_d => float_dest_t::gp,
        insn_type_t::insn_fmadd_s
        | insn_type_t::insn_fmsub_s
        | insn_type_t::insn_fnmsub_s
        | insn_type_t::insn_fnmadd_s
        | insn_type_t::insn_fadd_s
        | insn_type_t::insn_fsub_s
        | insn_type_t::insn_fmul_s
        | insn_type_t::insn_fdiv_s
        | insn_type_t::insn_fsqrt_s
        | insn_type_t::insn_fmin_s
        | insn_type_t::insn_fmax_s
        | insn_type_t::insn_fcvt_s_w
        | insn_type_t::insn_fcvt_s_wu
        | insn_type_t::insn_fcvt_s_l
        | insn_type_t::insn_fcvt_s_lu
        | insn_type_t::insn_fcvt_s_d => float_dest_t::single,
        _ => float_dest_t::double,
    }
}

/// Where the result of the floating-point instruction `t` goes.
#[verifier::when_used_as_spec(spec_float_dest)]
pub fn float_dest(t: insn_type_t) -> (r: float_dest_t)
    ensures
        r == spec_float_dest(t),
{
    match t {
        insn_type_t::insn_fcvt_w_s
        | insn_type_t::insn_fcvt_wu_s
        | insn_type_t::insn_feq_s
        | insn_type_t::insn_flt_s
        | insn_type_t::insn_fle_s
        | insn_type_t::insn_fclass_s
        | insn_type_t::insn_fcvt_l_s
        | insn_type_t::insn_fcvt_lu_s
        | insn_type_t::insn_feq_d
        | insn_type_t::insn_flt_d
        | insn_type_t::insn_fle_d
        | insn_type_t::insn_fclass_d
        | insn_type_t::insn_fcvt_w_d
        | insn_type_t::insn_fcvt_wu_d
        | insn_type_t::insn_fcvt_l_d
        | insn_type_t::insn_fcvt_lu_d => float_dest_t::gp,
        insn_type_t::insn_fmadd_s
        | insn_type_t::insn_fmsub_s
        | insn_type_t::insn_fnmsub_s
        | insn_type_t::insn_fnmadd_s
        | insn_type_t::insn_fadd_s
        | insn_type_t::insn_fsub_s
        | insn_type_t::insn_fmul_s
        | insn_type_t::insn_fdiv_s
        | insn_type_t::insn_fsqrt_s
        | insn_type_t::insn_fmin_s
        | insn_type_t::insn_fmax_s
        | insn_type_t::insn_fcvt_s_w
        | insn_type_t::insn_fcvt_s_wu
        | insn_type_t::insn_fcvt_s_l
        | insn_type_t::insn_fcvt_s_lu
        | insn_type_t::insn_fcvt_s_d => float_dest_t::single,
        _ => float_dest_t::double,
    }
}

/// Whether the floating-point instruction `t` converts an integer, and so
/// reads the general-purpose register `rs1`.
pub open spec fn spec_float_from_gp(t: insn_type_t) -> bool {
    match t {
        insn_type_t::insn_fcvt_s_w
        | insn_type_t::insn_fcvt_s_wu
        | insn_type_t::insn_fcvt_s_l
        | insn_type_t::insn_fcvt_s_lu
        | insn_type_t::insn_fcvt_d_w
        | insn_type_t::insn_fcvt_d_wu
        | insn_type_t::insn_fcvt_d_l
        | insn_type_t::insn_fcvt_d_lu => true,
        _ => false,
    }
}

/// Whether the floating-point instruction `t` converts an integer, and so
/// reads the general-purpose register `rs1`.
#[verifier::when_used_as_spec(spec_float_from_gp)]
pub fn float_from_gp(t: insn_type_t) -> (r: bool)
    ensures
        r == spec_float_from_gp(t),
{
    match t {
        insn_type_t::insn_fcvt_s_w
        | insn_type_t::insn_fcvt_s_wu
        | insn_type_t::insn_fcvt_s_l
        | insn_type_t::insn_fcvt_s_lu
        | insn_type_t::insn_fcvt_d_w
        | insn_type_t::insn_fcvt_d_wu
        | insn_type_t::insn_fcvt_d_l
        | insn_type_t::insn_fcvt_d_lu => true,
        _ => false,
    }
}

/// The bits that the floating-point instruction `insn` starts from in the
/// state `a`: the general-purpose register `rs1` for a conversion of an
/// integer, else the floating-point registers `rs1`, `rs2` and `rs3`.
pub open spec fn float_args(a: arch_t, insn: insn_t) -> float_args_t {
    if spec_float_from_gp(insn.type_) {
        float_args_t { a: a.gp[insn.rs1 as int], b: 0, c: 0 }
    } else {
        float_args_t {
            a: a.fp[insn.rs1 as int].v,
            b: a.fp[insn.rs2 as int].v,
            c: a.fp[insn.rs3 as int].v,
        }
    }
}

/// The state after the floating-point instruction `insn` has given
/// `value`: the result is in its register, a single in the low half of it,
/// register 0 reads zero, and `pc` is at the next instruction.
pub open spec fn retired(a: arch_t, insn: insn_t, value: u64) -> arch_t {
    let rd = insn.rd as int;
    let wrote = match spec_float_dest(insn.type_) {
        float_dest_t::gp => a.set_gp(rd, value),
        float_dest_t::single => a.set_fp(
            rd,
            with_low_half(a.fp[rd].v, (value % 0x1_0000_0000) as u32),
        ),
        float_dest_t::double => a.set_fp(rd, value),
    };
    arch_t { pc: wrap64(a.pc + insn_size(insn)), ..wrote.pin_zero() }
}

/// Reads what the host needs to do the floating-point work of `insn`.
pub fn float_operands(state: &state_t, insn: &insn_t) -> (r: float_args_t)
    requires
        insn.wf(),
    ensures
        r == float_args(state@, *insn),
{
    if float_from_gp(insn.type_) {
        float_args_t { a: state.gp_regs[insn.rs1 as usize], b: 0, c: 0 }
    } else {
        float_args_t {
            a: state.fp_regs[insn.rs1 as usize].v,
            b: state.fp_regs[insn.rs2 as usize].v,
            c: state.fp_regs[insn.rs3 as usize].v,
        }
    }
}

/// Completes the floating-point instruction `insn` with the result `value`
/// that the host computed, and steps over it. Does nothing, and returns
/// `false`, where `insn` is not floating-point work for the host.
pub fn float_retire(state: &mut state_t, insn: &insn_t, value: u64) -> (ok: bool)
    requires
        insn.wf(),
    ensures
        ok == (spec_insn_class(insn.type_) == class_t::fp_host),
        final(state)@ == (if ok {
            retired(old(state)@, *insn, value)
        } else {
            old(state)@
        }),
        ok ==> final(state).gp_regs@[0] == 0,
{
    if insn_class(insn.type_) != class_t::fp_host {
        return false;
    }
    match float_dest(insn.type_) {
        float_dest_t::gp => state.set_gp(insn.rd, value),
        float_dest_t::single => {
            let fd: u64 = state.fp_regs[insn.rd as usize].v;
            state.set_fp(insn.rd, merge_low_half(fd, (value % 0x1_0000_0000) as u32));
        },
        float_dest_t::double => state.set_fp(insn.rd, value),
    }
    state.set_gp(0, 0);
    state.pc = advance_addr(state.pc, if insn.rvc {
        2
    } else {
        4
    });
    true
}

/// The encoding at the guest address `pc`: its low half, and its high half
/// too where the low half begins a four-byte encoding. `None` if it does
/// not lie in the memory.
pub open spec fn fetch_spec(m: window_t, pc: u64) -> Option<u32> {
    match m.read(pc, 2) {
        Some(low) => if low % 4 == 3 {
            match m.read(pc, 4) {
                Some(all) => Some(all as u32),
                None => None,
            }
        } else {
            Some(low as u32)
        },
        None => None,
    }
}

/// Fetches the encoding at the guest address `pc`.
pub fn fetch(mem: &guest_mem_t, pc: u64) -> (r: Option<u32>)
    requires
        mem.wf(),
    ensures
        r == fetch_spec(mem@, pc),
{
    match mem.load_u16(pc) {
        Some(low) => {
            if low % 4 == 3 {
                mem.load_u32(pc)
            } else {
                Some(low as u32)
            }
        },
        None => None,
    }
}

/// One fetch-decode-execute cycle from the state `a` over the memory `m`:
/// the effect of the instruction at `pc`, with `pc` moved behind it unless
/// it ends the block; or why no instruction was executed.
#[verifier::opaque]
pub open spec fn cycle_spec(a: arch_t, m: window_t) -> Result<effect_t, stop_t> {
    match fetch_spec(m, a.pc) {
        None => Err(stop_t::memory_fault(a.pc)),
        Some(data) => match decode_spec(data) {
            None => Err(stop_t::decode_error(data)),
            Some(insn) => match step_spec(a, m, insn) {
                Err(e) => Err(e),
                Ok(eff) => if eff.cont {
                    Ok(eff)
                } else {
                    Ok(
                        effect_t {
                            arch: arch_t { pc: (a.pc + insn_size(insn)) as u64, ..eff.arch },
                            ..eff
                        },
                    )
                },
            },
        },
    }
}

/// How a run of the engine ends: the state and the memory it leaves, how
/// many instructions it executed, and, unless it ended with the end of a
/// block, the instruction that it could not execute.
pub struct block_t {
    pub arch: arch_t,
    pub mem: window_t,
    pub cycles: nat,
    pub end: Option<stop_t>,
}

/// One run of the engine from the state `a` over the memory `m`: cycle
/// after cycle until an instruction ends the block or cannot be executed.
pub open spec fn block_spec(a: arch_t, m: window_t) -> block_t
    decreases u64::MAX - a.pc,
    when m.wf()
    via block_spec_decreases
{
    match cycle_spec(a, m) {
        Err(e) => block_t { arch: a, mem: m, cycles: 0, end: Some(e) },
        Ok(eff) => if eff.cont {
            block_t { arch: eff.arch, mem: eff.mem, cycles: 1, end: None }
        } else {
            let rest = block_spec(eff.arch, eff.mem);
            block_t { cycles: rest.cycles + 1, ..rest }
        },
    }
}

#[via_fn]
proof fn block_spec_decreases(a: arch_t, m: window_t) {
    reveal(cycle_spec);
}

/// A cycle keeps the memory where and as large as it is, and one that does
/// not end the block moves `pc` up by the size of the instruction.
pub proof fn lemma_cycle_moves_on(a: arch_t, m: window_t)
    requires
        m.wf(),
    ensures
        cycle_spec(a, m) matches Ok(eff) ==> eff.mem.wf() && eff.mem.host_base == m.host_base
            && eff.mem.bytes.len() == m.bytes.len() && (!eff.cont ==> eff.arch.pc == a.pc + 2
            || eff.arch.pc == a.pc + 4),
{
    reveal(cycle_spec);
}

/// Runs one cycle: fetches the instruction at `pc`, decodes and executes
/// it, and moves `pc` behind it unless it ends the block. Returns whether
/// it ends the block. Where the instruction cannot be fetched, decoded or
/// executed, nothing changes and the result says why.
pub fn exec_cycle(state: &mut state_t, mem: &mut guest_mem_t) -> (r: Result<bool, stop_t>)
    requires
        old(mem).wf(),
    ensures
        final(mem).wf(),
        match r {
            Ok(cont) => cycle_spec(old(state)@, old(mem)@) == Ok::<effect_t, stop_t>(
                effect_t { arch: final(state)@, mem: final(mem)@, cont },
            ) && final(state).gp_regs@[0] == 0,
            Err(e) => cycle_spec(old(state)@, old(mem)@) == Err::<effect_t, stop_t>(e)
                && final(state)@ == old(state)@ && final(mem)@ == old(mem)@,
        },
{
    proof {
        reveal(cycle_spec);
    }
    let pc: u64 = state.pc;
    let data: u32 = match fetch(mem, pc) {
        Some(data) => data,
        None => {
            return Err(stop_t::memory_fault(pc));
        },
    };
    let mut insn: insn_t = match insn_try_decode(data) {
        Some(insn) => insn,
        None => {
            return Err(stop_t::decode_error(data));
        },
    };
    match exec_insn(state, mem, &mut insn) {
        Ok(()) => {},
        Err(e) => {
            return Err(e);
        },
    }
    if !insn.cont {
        state.pc = pc + (if insn.rvc {
            2
        } else {
            4
        });
    }
    Ok(insn.cont)
}

/// Runs the engine until an instruction ends the block: cycle after cycle,
/// each one fetching at `pc`, decoding, executing, forcing register 0 back
/// to zero and moving `pc` on. Returns how many instructions were executed;
/// `exit_reason` and `reenter_pc` then say why the block ended and where
/// execution resumes. Where an instruction cannot be fetched, decoded or
/// executed, the run stops in front of it and the result says why.
pub fn exec_block_interp(state: &mut state_t, mem: &mut guest_mem_t) -> (r: Result<u64, stop_t>)
    requires
        old(mem).wf(),
    ensures
        final(mem).wf(),
        final(state)@ == block_spec(old(state)@, old(mem)@).arch,
        final(mem)@ == block_spec(old(state)@, old(mem)@).mem,
        match r {
            Ok(n) => block_spec(old(state)@, old(mem)@).end is None && n == block_spec(
                old(state)@,
                old(mem)@,
            ).cycles && n >= 1 && final(state).gp_regs@[0] == 0,
            Err(e) => block_spec(old(state)@, old(mem)@).end == Some(e),
        },
{
    let ghost a0 = state@;
    let ghost m0 = mem@;
    let mut cycles: u64 = 0;
    loop
        invariant
            a0 == old(state)@,
            m0 == old(mem)@,
            mem.wf(),
            state.pc >= a0.pc + 2 * cycles,
            block_spec(a0, m0) == (block_t {
                cycles: block_spec(state@, mem@).cycles + cycles as nat,
                ..block_spec(state@, mem@)
            }),
        decreases u64::MAX - state.pc,
    {
        proof {
            lemma_cycle_moves_on(state@, mem@);
        }
        match exec_cycle(state, mem) {
            Ok(cont) => {
                cycles = cycles + 1;
                if cont {
                    return Ok(cycles);
                }
            },
            Err(e) => {
                return Err(e);
            },
        }
    }
}

} // verus!
