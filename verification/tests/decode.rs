use rvemu::decode::{
    decode_compressed0, decode_compressed1, decode_compressed2, decode_full, insn_decode,
    insn_try_decode, quadrant,
};
use rvemu::insn::{
    cfunct1, cfunct2high, cfunct2low, copcode, funct2, funct3, funct7, imm116, insn_t, insn_type_t,
    opcode, rc1, rc2, rd, rp1, rp2, rs1, rs2, rs3,
};

type T = insn_type_t;

fn decoded(data: u32) -> insn_t {
    assert!(insn_try_decode(data).is_some(), "no instruction for {:#010x}", data);
    let mut insn = insn_t::default();
    insn_decode(&mut insn, data);
    assert_eq!(Some(insn), insn_try_decode(data));
    insn
}

fn record(t: insn_type_t, rd: u8, rs1: u8, rs2: u8, imm: i32) -> insn_t {
    let cont = matches!(
        t,
        insn_type_t::insn_jal | insn_type_t::insn_jalr | insn_type_t::insn_ecall
    );
    insn_t { rd, rs1, rs2, rs3: 0, imm, csr: 0, type_: t, rvc: false, cont }
}

fn compressed(t: insn_type_t, rd: u8, rs1: u8, rs2: u8, imm: i32) -> insn_t {
    insn_t { rvc: true, ..record(t, rd, rs1, rs2, imm) }
}

fn r_type(opcode: u32, funct3: u32, funct7: u32, rd: u32, rs1: u32, rs2: u32) -> u32 {
    3 | opcode << 2 | rd << 7 | funct3 << 12 | rs1 << 15 | rs2 << 20 | funct7 << 25
}

fn i_type(opcode: u32, funct3: u32, rd: u32, rs1: u32, imm: i32) -> u32 {
    3 | opcode << 2 | rd << 7 | funct3 << 12 | rs1 << 15 | ((imm as u32) & 0xfff) << 20
}

fn s_type(opcode: u32, funct3: u32, rs1: u32, rs2: u32, imm: i32) -> u32 {
    let imm = imm as u32;
    3 | opcode << 2 | (imm & 0x1f) << 7 | funct3 << 12 | rs1 << 15 | rs2 << 20
        | ((imm >> 5) & 0x7f) << 25
}

fn b_type(funct3: u32, rs1: u32, rs2: u32, imm: i32) -> u32 {
    let imm = imm as u32;
    3 | 0x18 << 2 | ((imm >> 11) & 1) << 7 | ((imm >> 1) & 0xf) << 8 | funct3 << 12 | rs1 << 15
        | rs2 << 20 | ((imm >> 5) & 0x3f) << 25 | ((imm >> 12) & 1) << 31
}

fn u_type(opcode: u32, rd: u32, imm: i32) -> u32 {
    3 | opcode << 2 | rd << 7 | ((imm as u32) & 0xffff_f000)
}

fn j_type(rd: u32, imm: i32) -> u32 {
    let imm = imm as u32;
    3 | 0x1b << 2 | rd << 7 | ((imm >> 12) & 0xff) << 12 | ((imm >> 11) & 1) << 20
        | ((imm >> 1) & 0x3ff) << 21 | ((imm >> 20) & 1) << 31
}

#[test]
fn canonical_nop_decodes_to_addi() {
    let insn = decoded(0x0000_0013);
    assert_eq!(insn.type_, insn_type_t::insn_addi);
    assert_eq!(insn.rd, 0);
    assert_eq!(insn.rs1, 0);
    assert_eq!(insn.imm, 0);
    assert!(!insn.rvc);
    assert!(!insn.cont);
}

#[test]
fn compressed_li_forces_rs1_to_zero() {
    let insn = decoded(0x4501);
    assert_eq!(insn.type_, insn_type_t::insn_addi);
    assert_eq!(insn.rs1, 0);
    assert_eq!(insn.rd, 10);
    assert_eq!(insn.imm, 0);
    assert!(insn.rvc);
}

#[test]
fn ecall_decodes_as_terminator() {
    let insn = decoded(0x0000_0073);
    assert_eq!(insn.type_, insn_type_t::insn_ecall);
    assert!(insn.cont);
    assert!(!insn.rvc);
    assert_eq!(insn, record(insn_type_t::insn_ecall, 0, 0, 0, 0));
}

#[test]
fn most_negative_branch_offset_is_minus_4096() {
    let insn = decoded(0x8000_0063);
    assert_eq!(insn.type_, insn_type_t::insn_beq);
    assert_eq!(insn.imm, -4096);
    assert_eq!(decoded(b_type(1, 3, 4, -4096)), record(insn_type_t::insn_bne, 0, 3, 4, -4096));
}

#[test]
fn most_negative_12_bit_immediate_is_minus_2048() {
    let insn = decoded(0x8000_0013);
    assert_eq!(insn.type_, insn_type_t::insn_addi);
    assert_eq!(insn.imm, -2048);
    assert_eq!(decoded(s_type(8, 3, 2, 1, -2048)), record(insn_type_t::insn_sd, 0, 2, 1, -2048));
}

#[test]
fn compressed_immediate_with_sign_bit_is_minus_32() {
    assert_eq!(decoded(0x1501), compressed(insn_type_t::insn_addi, 10, 10, 0, -32));
}

#[test]
fn field_extractors_read_their_bits() {
    let data: u32 = 0xa5c3_9e7f;
    assert_eq!(quadrant(data), 3);
    assert_eq!(opcode(data), 0x1f);
    assert_eq!(rd(data), 0x1c);
    assert_eq!(funct3(data), 0x1);
    assert_eq!(rs1(data), 0x07);
    assert_eq!(rs2(data), 0x1c);
    assert_eq!(funct2(data), 0x2);
    assert_eq!(funct7(data), 0x52);
    assert_eq!(rs3(data), 0x14);
    assert_eq!(imm116(data), 0x29);
    assert_eq!(quadrant(0xffff_fffc), 0);
}

#[test]
fn compressed_field_extractors_read_their_bits() {
    let data: u16 = 0xb5a6;
    assert_eq!(copcode(data), 5);
    assert_eq!(cfunct1(data), 1);
    assert_eq!(cfunct2high(data), 1);
    assert_eq!(cfunct2low(data), 1);
    assert_eq!(rp1(data), 3);
    assert_eq!(rp2(data), 1);
    assert_eq!(rc1(data), 11);
    assert_eq!(rc2(data), 9);
}

#[test]
fn full_register_field_of_compressed_form_has_five_bits() {
    assert_eq!(rc1(0x4f81), 31);
    assert_eq!(decoded(0x4f81), compressed(insn_type_t::insn_addi, 31, 0, 0, 0));
}

#[test]
fn known_encodings_decode() {
    assert_eq!(decoded(0x0031_00b3), record(insn_type_t::insn_add, 1, 2, 3, 0));
    assert_eq!(decoded(0xfff5_8513), record(insn_type_t::insn_addi, 10, 11, 0, -1));
    assert_eq!(decoded(0x0000_8067), record(insn_type_t::insn_jalr, 0, 1, 0, 0));
    assert_eq!(decoded(0x0011_3423), record(insn_type_t::insn_sd, 0, 2, 1, 8));
    assert_eq!(decoded(0x0081_3083), record(insn_type_t::insn_ld, 1, 2, 0, 8));
    assert_eq!(decoded(0x1234_5537), record(insn_type_t::insn_lui, 10, 0, 0, 0x1234_5000));
    assert_eq!(decoded(0x0000_0097), record(insn_type_t::insn_auipc, 1, 0, 0, 0));
    assert_eq!(decoded(0x0000_00ef), record(insn_type_t::insn_jal, 1, 0, 0, 0));
    assert_eq!(decoded(0x0000_000f), record(insn_type_t::insn_fence, 0, 0, 0, 0));
    assert_eq!(decoded(0x0000_100f), record(insn_type_t::insn_fence_i, 0, 0, 0, 0));
}

#[test]
fn fence_drops_its_operand_bits() {
    assert_eq!(decoded(0x0ff0_000f), record(insn_type_t::insn_fence, 0, 0, 0, 0));
}

#[test]
fn register_operations_round_trip() {
    let table = [
        (insn_type_t::insn_add, 0xc, 0, 0x00),
        (insn_type_t::insn_sll, 0xc, 1, 0x00),
        (insn_type_t::insn_slt, 0xc, 2, 0x00),
        (insn_type_t::insn_sltu, 0xc, 3, 0x00),
        (insn_type_t::insn_xor, 0xc, 4, 0x00),
        (insn_type_t::insn_srl, 0xc, 5, 0x00),
        (insn_type_t::insn_or, 0xc, 6, 0x00),
        (insn_type_t::insn_and, 0xc, 7, 0x00),
        (insn_type_t::insn_mul, 0xc, 0, 0x01),
        (insn_type_t::insn_mulh, 0xc, 1, 0x01),
        (insn_type_t::insn_mulhsu, 0xc, 2, 0x01),
        (insn_type_t::insn_mulhu, 0xc, 3, 0x01),
        (insn_type_t::insn_div, 0xc, 4, 0x01),
        (insn_type_t::insn_divu, 0xc, 5, 0x01),
        (insn_type_t::insn_rem, 0xc, 6, 0x01),
        (insn_type_t::insn_remu, 0xc, 7, 0x01),
        (insn_type_t::insn_sub, 0xc, 0, 0x20),
        (insn_type_t::insn_sra, 0xc, 5, 0x20),
        (insn_type_t::insn_addw, 0xe, 0, 0x00),
        (insn_type_t::insn_sllw, 0xe, 1, 0x00),
        (insn_type_t::insn_srlw, 0xe, 5, 0x00),
        (insn_type_t::insn_mulw, 0xe, 0, 0x01),
        (insn_type_t::insn_divw, 0xe, 4, 0x01),
        (insn_type_t::insn_divuw, 0xe, 5, 0x01),
        (insn_type_t::insn_remw, 0xe, 6, 0x01),
        (insn_type_t::insn_remuw, 0xe, 7, 0x01),
        (insn_type_t::insn_subw, 0xe, 0, 0x20),
        (insn_type_t::insn_sraw, 0xe, 5, 0x20),
        (insn_type_t::insn_fadd_s, 0x14, 0, 0x00),
        (insn_type_t::insn_fadd_d, 0x14, 0, 0x01),
        (insn_type_t::insn_fsub_s, 0x14, 0, 0x04),
        (insn_type_t::insn_fsub_d, 0x14, 0, 0x05),
        (insn_type_t::insn_fmul_s, 0x14, 0, 0x08),
        (insn_type_t::insn_fmul_d, 0x14, 0, 0x09),
        (insn_type_t::insn_fdiv_s, 0x14, 0, 0x0c),
        (insn_type_t::insn_fdiv_d, 0x14, 0, 0x0d),
        (insn_type_t::insn_fsgnj_s, 0x14, 0, 0x10),
        (insn_type_t::insn_fsgnjn_s, 0x14, 1, 0x10),
        (insn_type_t::insn_fsgnjx_s, 0x14, 2, 0x10),
        (insn_type_t::insn_fsgnj_d, 0x14, 0, 0x11),
        (insn_type_t::insn_fsgnjn_d, 0x14, 1, 0x11),
        (insn_type_t::insn_fsgnjx_d, 0x14, 2, 0x11),
        (insn_type_t::insn_fmin_s, 0x14, 0, 0x14),
        (insn_type_t::insn_fmax_s, 0x14, 1, 0x14),
        (insn_type_t::insn_fmin_d, 0x14, 0, 0x15),
        (insn_type_t::insn_fmax_d, 0x14, 1, 0x15),
        (insn_type_t::insn_fle_s, 0x14, 0, 0x50),
        (insn_type_t::insn_flt_s, 0x14, 1, 0x50),
        (insn_type_t::insn_feq_s, 0x14, 2, 0x50),
        (insn_type_t::insn_fle_d, 0x14, 0, 0x51),
        (insn_type_t::insn_flt_d, 0x14, 1, 0x51),
        (insn_type_t::insn_feq_d, 0x14, 2, 0x51),
    ];
    for (t, opcode, funct3, funct7) in table {
        for (rd, rs1, rs2) in [(0u8, 0u8, 0u8), (1, 2, 3), (31, 30, 29), (17, 0, 31)] {
            let data = r_type(opcode, funct3, funct7, rd as u32, rs1 as u32, rs2 as u32);
            assert_eq!(decoded(data), record(t, rd, rs1, rs2, 0), "{:?}", t);
        }
    }
}

#[test]
fn conversions_chosen_by_rs2_round_trip() {
    let table = [
        (insn_type_t::insn_fcvt_s_d, 0, 0x20, 1u8),
        (insn_type_t::insn_fcvt_d_s, 0, 0x21, 0),
        (insn_type_t::insn_fsqrt_s, 0, 0x2c, 0),
        (insn_type_t::insn_fsqrt_d, 0, 0x2d, 0),
        (insn_type_t::insn_fcvt_w_s, 0, 0x60, 0),
        (insn_type_t::insn_fcvt_wu_s, 0, 0x60, 1),
        (insn_type_t::insn_fcvt_l_s, 0, 0x60, 2),
        (insn_type_t::insn_fcvt_lu_s, 0, 0x60, 3),
        (insn_type_t::insn_fcvt_w_d, 0, 0x61, 0),
        (insn_type_t::insn_fcvt_wu_d, 0, 0x61, 1),
        (insn_type_t::insn_fcvt_l_d, 0, 0x61, 2),
        (insn_type_t::insn_fcvt_lu_d, 0, 0x61, 3),
        (insn_type_t::insn_fcvt_s_w, 0, 0x68, 0),
        (insn_type_t::insn_fcvt_s_wu, 0, 0x68, 1),
        (insn_type_t::insn_fcvt_s_l, 0, 0x68, 2),
        (insn_type_t::insn_fcvt_s_lu, 0, 0x68, 3),
        (insn_type_t::insn_fcvt_d_w, 0, 0x69, 0),
        (insn_type_t::insn_fcvt_d_wu, 0, 0x69, 1),
        (insn_type_t::insn_fcvt_d_l, 0, 0x69, 2),
        (insn_type_t::insn_fcvt_d_lu, 0, 0x69, 3),
        (insn_type_t::insn_fmv_x_w, 0, 0x70, 0),
        (insn_type_t::insn_fclass_s, 1, 0x70, 0),
        (insn_type_t::insn_fmv_x_d, 0, 0x71, 0),
        (insn_type_t::insn_fclass_d, 1, 0x71, 0),
        (insn_type_t::insn_fmv_w_x, 0, 0x78, 0),
        (insn_type_t::insn_fmv_d_x, 0, 0x79, 0),
    ];
    for (t, funct3, funct7, rs2) in table {
        let data = r_type(0x14, funct3, funct7, 9, 21, rs2 as u32);
        assert_eq!(decoded(data), record(t, 9, 21, rs2, 0), "{:?}", t);
    }
}

#[test]
fn fused_multiply_adds_round_trip() {
    let table = [
        (insn_type_t::insn_fmadd_s, 0x10, 0),
        (insn_type_t::insn_fmadd_d, 0x10, 1),
        (insn_type_t::insn_fmsub_s, 0x11, 0),
        (insn_type_t::insn_fmsub_d, 0x11, 1),
        (insn_type_t::insn_fnmsub_s, 0x12, 0),
        (insn_type_t::insn_fnmsub_d, 0x12, 1),
        (insn_type_t::insn_fnmadd_s, 0x13, 0),
        (insn_type_t::insn_fnmadd_d, 0x13, 1),
    ];
    for (t, opcode, funct2) in table {
        let data = r_type(opcode, 0, funct2 | 19 << 2, 4, 5, 6);
        let expected = insn_t { rs3: 19, ..record(t, 4, 5, 6, 0) };
        assert_eq!(decoded(data), expected, "{:?}", t);
    }
}

#[test]
fn immediate_operations_round_trip() {
    let table = [
        (insn_type_t::insn_lb, 0x0, 0),
        (insn_type_t::insn_lh, 0x0, 1),
        (insn_type_t::insn_lw, 0x0, 2),
        (insn_type_t::insn_ld, 0x0, 3),
        (insn_type_t::insn_lbu, 0x0, 4),
        (insn_type_t::insn_lhu, 0x0, 5),
        (insn_type_t::insn_lwu, 0x0, 6),
        (insn_type_t::insn_flw, 0x1, 2),
        (insn_type_t::insn_fld, 0x1, 3),
        (insn_type_t::insn_addi, 0x4, 0),
        (insn_type_t::insn_slti, 0x4, 2),
        (insn_type_t::insn_sltiu, 0x4, 3),
        (insn_type_t::insn_xori, 0x4, 4),
        (insn_type_t::insn_ori, 0x4, 6),
        (insn_type_t::insn_andi, 0x4, 7),
        (insn_type_t::insn_addiw, 0x6, 0),
        (insn_type_t::insn_jalr, 0x19, 0),
    ];
    for (t, opcode, funct3) in table {
        for imm in [0, 1, -1, 2047, -2048, 0x555, -0x556] {
            let data = i_type(opcode, funct3, 7, 8, imm);
            assert_eq!(decoded(data), record(t, 7, 8, 0, imm), "{:?} {}", t, imm);
        }
    }
}

#[test]
fn shifts_by_immediate_round_trip() {
    for shamt in [0, 1, 31, 32, 63] {
        assert_eq!(
            decoded(i_type(0x4, 1, 5, 6, shamt)),
            record(insn_type_t::insn_slli, 5, 6, 0, shamt)
        );
        assert_eq!(
            decoded(i_type(0x4, 5, 5, 6, shamt)),
            record(insn_type_t::insn_srli, 5, 6, 0, shamt)
        );
        assert_eq!(
            decoded(i_type(0x4, 5, 5, 6, 0x400 | shamt)),
            record(insn_type_t::insn_srai, 5, 6, 0, 0x400 | shamt)
        );
    }
    for shamt in [0, 1, 31] {
        assert_eq!(
            decoded(i_type(0x6, 1, 5, 6, shamt)),
            record(insn_type_t::insn_slliw, 5, 6, 0, shamt)
        );
        assert_eq!(
            decoded(i_type(0x6, 5, 5, 6, shamt)),
            record(insn_type_t::insn_srliw, 5, 6, 0, shamt)
        );
        assert_eq!(
            decoded(i_type(0x6, 5, 5, 6, 0x400 | shamt)),
            record(insn_type_t::insn_sraiw, 5, 6, 0, 0x400 | shamt)
        );
    }
}

#[test]
fn shift_with_reserved_high_bits_is_undefined() {
    assert_eq!(insn_try_decode(i_type(0x4, 1, 5, 6, 0x040)), None);
    assert_eq!(insn_try_decode(i_type(0x4, 1, 5, 6, 0x400)), None);
    assert_eq!(insn_try_decode(i_type(0x4, 5, 5, 6, 0x200)), None);
    assert_eq!(insn_try_decode(i_type(0x4, 5, 5, 6, -2048)), None);
    assert_eq!(insn_try_decode(i_type(0x6, 1, 5, 6, 0x020)), None);
    assert_eq!(insn_try_decode(i_type(0x6, 5, 5, 6, 0x020)), None);
    assert_eq!(insn_try_decode(i_type(0x6, 5, 5, 6, 0x420)), None);
}

#[test]
fn stores_round_trip() {
    let table = [
        (insn_type_t::insn_sb, 0x8, 0),
        (insn_type_t::insn_sh, 0x8, 1),
        (insn_type_t::insn_sw, 0x8, 2),
        (insn_type_t::insn_sd, 0x8, 3),
        (insn_type_t::insn_fsw, 0x9, 2),
        (insn_type_t::insn_fsd, 0x9, 3),
    ];
    for (t, opcode, funct3) in table {
        for imm in [0, 1, -1, 2047, -2048, 0x2aa, -33] {
            let data = s_type(opcode, funct3, 12, 13, imm);
            assert_eq!(decoded(data), record(t, 0, 12, 13, imm), "{:?} {}", t, imm);
        }
    }
}

#[test]
fn branches_round_trip() {
    let table = [
        (insn_type_t::insn_beq, 0),
        (insn_type_t::insn_bne, 1),
        (insn_type_t::insn_blt, 4),
        (insn_type_t::insn_bge, 5),
        (insn_type_t::insn_bltu, 6),
        (insn_type_t::insn_bgeu, 7),
    ];
    for (t, funct3) in table {
        for imm in [0, 2, -2, 4094, -4096, 0x800, 0x7fe, -0x802] {
            let data = b_type(funct3, 14, 15, imm);
            let insn = decoded(data);
            assert_eq!(insn, record(t, 0, 14, 15, imm), "{:?} {}", t, imm);
            assert!(!insn.cont);
        }
    }
}

#[test]
fn upper_immediates_and_jumps_round_trip() {
    for imm in [0, 0x1000, -0x1000, 0x7fff_f000, i32::MIN] {
        assert_eq!(decoded(u_type(0xd, 3, imm)), record(insn_type_t::insn_lui, 3, 0, 0, imm));
        assert_eq!(decoded(u_type(0x5, 3, imm)), record(insn_type_t::insn_auipc, 3, 0, 0, imm));
    }
    for imm in [0, 2, -2, 0xf_fffe, -0x10_0000, 0x800, 0x1000, -0x7_f802] {
        let insn = decoded(j_type(1, imm));
        assert_eq!(insn, record(insn_type_t::insn_jal, 1, 0, 0, imm));
        assert!(insn.cont);
    }
}

#[test]
fn csr_instructions_round_trip() {
    let table = [
        (insn_type_t::insn_csrrw, 1),
        (insn_type_t::insn_csrrs, 2),
        (insn_type_t::insn_csrrc, 3),
        (insn_type_t::insn_csrrwi, 5),
        (insn_type_t::insn_csrrsi, 6),
        (insn_type_t::insn_csrrci, 7),
    ];
    for (t, funct3) in table {
        for csr in [0u16, 1, 2, 3, 0xc00, 0xfff] {
            let data = 3 | 0x1c << 2 | 5 << 7 | funct3 << 12 | 6 << 15 | (csr as u32) << 20;
            let expected = insn_t { csr, ..record(t, 5, 6, 0, 0) };
            assert_eq!(decoded(data), expected, "{:?} {:#x}", t, csr);
        }
    }
}

#[test]
fn undefined_words_are_rejected() {
    assert_eq!(insn_try_decode(i_type(0x0, 7, 1, 2, 0)), None);
    assert_eq!(insn_try_decode(i_type(0x1, 0, 1, 2, 0)), None);
    assert_eq!(insn_try_decode(i_type(0x3, 2, 0, 0, 0)), None);
    assert_eq!(insn_try_decode(i_type(0x6, 2, 1, 2, 0)), None);
    assert_eq!(insn_try_decode(s_type(0x8, 4, 1, 2, 0)), None);
    assert_eq!(insn_try_decode(s_type(0x9, 0, 1, 2, 0)), None);
    assert_eq!(insn_try_decode(r_type(0xc, 0, 0x02, 1, 2, 3)), None);
    assert_eq!(insn_try_decode(r_type(0xc, 1, 0x20, 1, 2, 3)), None);
    assert_eq!(insn_try_decode(r_type(0xe, 2, 0x00, 1, 2, 3)), None);
    assert_eq!(insn_try_decode(r_type(0xe, 1, 0x01, 1, 2, 3)), None);
    assert_eq!(insn_try_decode(r_type(0x10, 0, 2, 1, 2, 3)), None);
    assert_eq!(insn_try_decode(r_type(0x14, 3, 0x10, 1, 2, 3)), None);
    assert_eq!(insn_try_decode(r_type(0x14, 0, 0x20, 1, 2, 0)), None);
    assert_eq!(insn_try_decode(r_type(0x14, 0, 0x21, 1, 2, 1)), None);
    assert_eq!(insn_try_decode(r_type(0x14, 0, 0x2c, 1, 2, 1)), None);
    assert_eq!(insn_try_decode(r_type(0x14, 0, 0x60, 1, 2, 4)), None);
    assert_eq!(insn_try_decode(r_type(0x14, 2, 0x70, 1, 2, 0)), None);
    assert_eq!(insn_try_decode(r_type(0x14, 0, 0x70, 1, 2, 1)), None);
    assert_eq!(insn_try_decode(r_type(0x14, 1, 0x78, 1, 2, 0)), None);
    assert_eq!(insn_try_decode(r_type(0x14, 0, 0x7f, 1, 2, 0)), None);
    assert_eq!(insn_try_decode(b_type(2, 1, 2, 0)), None);
    assert_eq!(insn_try_decode(0x0010_0073), None);
    assert_eq!(insn_try_decode(0x0000_4073), None);
    assert_eq!(insn_try_decode(r_type(0x2, 0, 0, 0, 0, 0)), None);
    assert_eq!(insn_try_decode(r_type(0xb, 2, 0, 1, 2, 3)), None);
    assert_eq!(insn_try_decode(0xffff_ffff), None);
    assert_eq!(decode_full(0xffff_ffff), None);
}

#[test]
fn known_compressed_encodings_decode() {
    let table = [
        (0x8082, compressed(T::insn_jalr, 0, 1, 0, 0)),
        (0x0001, compressed(T::insn_addi, 0, 0, 0, 0)),
        (0x852e, compressed(T::insn_add, 10, 0, 11, 0)),
        (0x952e, compressed(T::insn_add, 10, 10, 11, 0)),
        (0x1141, compressed(T::insn_addi, 2, 2, 0, -16)),
        (0xe406, compressed(T::insn_sd, 0, 2, 1, 8)),
        (0x60a2, compressed(T::insn_ld, 1, 2, 0, 8)),
        (0x0141, compressed(T::insn_addi, 2, 2, 0, 16)),
        (0x0028, compressed(T::insn_addi, 10, 2, 0, 8)),
        (0x4188, compressed(T::insn_lw, 10, 11, 0, 0)),
        (0xc188, compressed(T::insn_sw, 0, 11, 10, 0)),
        (0x6188, compressed(T::insn_ld, 10, 11, 0, 0)),
        (0xe188, compressed(T::insn_sd, 0, 11, 10, 0)),
        (0xa001, compressed(T::insn_jal, 0, 0, 0, 0)),
        (0xc101, compressed(T::insn_beq, 0, 10, 0, 0)),
        (0xe101, compressed(T::insn_bne, 0, 10, 0, 0)),
        (0x6505, compressed(T::insn_lui, 10, 0, 0, 4096)),
        (0x0506, compressed(T::insn_slli, 10, 10, 0, 1)),
        (0x8105, compressed(T::insn_srli, 10, 10, 0, 1)),
        (0x8505, compressed(T::insn_srai, 10, 10, 0, 1)),
        (0x8905, compressed(T::insn_andi, 10, 10, 0, 1)),
        (0x8d0d, compressed(T::insn_sub, 10, 10, 11, 0)),
        (0x8d2d, compressed(T::insn_xor, 10, 10, 11, 0)),
        (0x8d4d, compressed(T::insn_or, 10, 10, 11, 0)),
        (0x8d6d, compressed(T::insn_and, 10, 10, 11, 0)),
        (0x9d0d, compressed(T::insn_subw, 10, 10, 11, 0)),
        (0x9d2d, compressed(T::insn_addw, 10, 10, 11, 0)),
        (0x9c81, compressed(T::insn_subw, 9, 9, 8, 0)),
        (0x2505, compressed(T::insn_addiw, 10, 10, 0, 1)),
        (0x9502, compressed(T::insn_jalr, 1, 10, 0, 0)),
        (0x8502, compressed(T::insn_jalr, 0, 10, 0, 0)),
        (0x4502, compressed(T::insn_lw, 10, 2, 0, 0)),
        (0xc02a, compressed(T::insn_sw, 0, 2, 10, 0)),
        (0x2188, compressed(T::insn_fld, 10, 11, 0, 0)),
        (0xa188, compressed(T::insn_fsd, 0, 11, 10, 0)),
        (0x2502, compressed(T::insn_fld, 10, 2, 0, 0)),
        (0xa02a, compressed(T::insn_fsd, 0, 2, 10, 0)),
        (0x7139, compressed(T::insn_addi, 2, 2, 0, -64)),
        (0x717d, compressed(T::insn_addi, 2, 2, 0, -16)),
        (0x6105, compressed(T::insn_addi, 2, 2, 0, 32)),
        (0xbfd5, compressed(T::insn_jal, 0, 0, 0, -12)),
        (0xdd75, compressed(T::insn_beq, 0, 10, 0, -4)),
    ];
    for (data, expected) in table {
        assert_eq!(decoded(data), expected, "{:#06x}", data);
    }
}

#[test]
fn compressed_encoding_ignores_the_upper_half() {
    assert_eq!(decoded(0xffff_4501), decoded(0x4501));
    assert_eq!(decoded(0x1234_8082), decoded(0x8082));
}

#[test]
fn reserved_compressed_encodings_are_rejected() {
    for data in [0x0000u16, 0x8000, 0x9002, 0x8002, 0x4002, 0x6002, 0x2001, 0x6101, 0x6001, 0x9d4d, 0x9d6d] {
        assert_eq!(insn_try_decode(data as u32), None, "{:#06x}", data);
    }
    assert_eq!(decode_compressed0(0x0000), None);
    assert_eq!(decode_compressed0(0x8000), None);
    assert_eq!(decode_compressed1(0x2001), None);
    assert_eq!(decode_compressed2(0x9002), None);
}

#[test]
fn quadrant_decoders_agree_with_the_decoder() {
    assert_eq!(decode_compressed0(0x0028), insn_try_decode(0x0028));
    assert_eq!(decode_compressed1(0x4501), insn_try_decode(0x4501));
    assert_eq!(decode_compressed2(0x8082), insn_try_decode(0x8082));
    assert_eq!(decode_full(0x0031_00b3), insn_try_decode(0x0031_00b3));
}

#[test]
fn readers_keep_what_they_do_not_read() {
    let mut insn = insn_t { rs3: 7, csr: 9, cont: true, ..insn_t::default() };
    insn.insn_rtype_read(r_type(0xc, 0, 0, 1, 2, 3));
    assert_eq!((insn.rd, insn.rs1, insn.rs2, insn.rs3, insn.csr), (1, 2, 3, 7, 9));
    assert!(insn.cont && !insn.rvc);
    insn.insn_itype_read(i_type(0x4, 0, 4, 5, -7));
    assert_eq!((insn.rd, insn.rs1, insn.rs2, insn.imm), (4, 5, 3, -7));
    insn.insn_stype_read(s_type(0x8, 0, 6, 7, 100));
    assert_eq!((insn.rd, insn.rs1, insn.rs2, insn.imm), (4, 6, 7, 100));
    insn.insn_btype_read(b_type(0, 8, 9, -100));
    assert_eq!((insn.rd, insn.rs1, insn.rs2, insn.imm), (4, 8, 9, -100));
    insn.insn_utype_read(u_type(0xd, 10, -4096));
    assert_eq!((insn.rd, insn.rs1, insn.imm), (10, 8, -4096));
    insn.insn_jtype_read(j_type(11, -2));
    assert_eq!((insn.rd, insn.rs1, insn.imm), (11, 8, -2));
    insn.insn_csrtype_read(0x0031_10f3);
    assert_eq!((insn.rd, insn.rs1, insn.csr, insn.imm), (1, 2, 3, -2));
    insn.insn_fprtype_read(r_type(0x10, 0, 1 | 12 << 2, 13, 14, 15));
    assert_eq!((insn.rd, insn.rs1, insn.rs2, insn.rs3), (13, 14, 15, 12));
}

#[test]
fn compressed_readers_read_their_immediates() {
    let mut insn = insn_t::default();
    insn.insn_citype_read(0x1501);
    assert_eq!((insn.rd, insn.imm, insn.rvc), (10, -32, true));
    insn.insn_citype_read2(0x60a2);
    assert_eq!((insn.rd, insn.imm), (1, 8));
    insn.insn_citype_read3(0x7139);
    assert_eq!((insn.rd, insn.imm), (2, -64));
    insn.insn_citype_read4(0x4502 | 1 << 4 | 1 << 2);
    assert_eq!((insn.rd, insn.imm), (10, 4 + 64));
    insn.insn_citype_read5(0x6505 | 1 << 12);
    assert_eq!((insn.rd, insn.imm), (10, 4096 - 0x2_0000));
    insn.insn_cbtype_read(0xdd75);
    assert_eq!((insn.rs1, insn.imm), (10, -4));
    insn.insn_cbtype_read2(0x8105);
    assert_eq!((insn.rd, insn.imm), (10, 1));
    insn.insn_cstype_read(0xe188 | 1 << 5 | 1 << 10);
    assert_eq!((insn.rs1, insn.rs2, insn.imm), (11, 10, 64 + 8));
    insn.insn_cstype_read2(0xc188 | 1 << 5 | 1 << 6);
    assert_eq!((insn.rs1, insn.rs2, insn.imm), (11, 10, 64 + 4));
    insn.insn_cjtype_read(0xbfd5);
    assert_eq!(insn.imm, -12);
    insn.insn_cltype_read(0x4188 | 1 << 12);
    assert_eq!((insn.rs1, insn.rd, insn.imm), (11, 10, 32));
    insn.insn_cltype_read2(0x6188 | 1 << 6);
    assert_eq!((insn.rs1, insn.rd, insn.imm), (11, 10, 128));
    insn.insn_csstype_read(0xe406 | 1 << 7);
    assert_eq!((insn.rs2, insn.imm), (1, 8 + 64));
    insn.insn_csstype_read2(0xc02a | 1 << 9 | 1 << 8);
    assert_eq!((insn.rs2, insn.imm), (10, 4 + 128));
    insn.insn_ciwtype_read(0x0028 | 1 << 6 | 1 << 11);
    assert_eq!((insn.rd, insn.imm), (10, 8 + 4 + 16));
    insn.insn_catype_read(0x8d0d);
    assert_eq!((insn.rd, insn.rs2), (10, 11));
    insn.insn_crtype_read(0x852e);
    assert_eq!((insn.rs1, insn.rs2), (10, 11));
}

#[test]
fn blank_record_holds_no_instruction() {
    let insn = insn_t::default();
    assert_eq!(insn.type_, insn_type_t::num_insns);
    assert_eq!((insn.rd, insn.rs1, insn.rs2, insn.rs3, insn.imm, insn.csr), (0, 0, 0, 0, 0, 0));
    assert!(!insn.rvc && !insn.cont);
}
