use rvemu::decode::{format_t, insn_try_decode};
use rvemu::encode::{format_of, insn_encode, is_encodable, selector};
use rvemu::insn::{insn_t, insn_type_t};

type T = insn_type_t;

const ALL: [insn_type_t; 133] = [
    T::insn_lb, T::insn_lh, T::insn_lw, T::insn_ld, T::insn_lbu, T::insn_lhu, T::insn_lwu,
    T::insn_fence, T::insn_fence_i, T::insn_addi, T::insn_slli, T::insn_slti, T::insn_sltiu,
    T::insn_xori, T::insn_srli, T::insn_srai, T::insn_ori, T::insn_andi, T::insn_auipc,
    T::insn_addiw, T::insn_slliw, T::insn_srliw, T::insn_sraiw, T::insn_sb, T::insn_sh, T::insn_sw,
    T::insn_sd, T::insn_add, T::insn_sll, T::insn_slt, T::insn_sltu, T::insn_xor, T::insn_srl,
    T::insn_or, T::insn_and, T::insn_mul, T::insn_mulh, T::insn_mulhsu, T::insn_mulhu, T::insn_div,
    T::insn_divu, T::insn_rem, T::insn_remu, T::insn_sub, T::insn_sra, T::insn_lui, T::insn_addw,
    T::insn_sllw, T::insn_srlw, T::insn_mulw, T::insn_divw, T::insn_divuw, T::insn_remw,
    T::insn_remuw, T::insn_subw, T::insn_sraw, T::insn_beq, T::insn_bne, T::insn_blt, T::insn_bge,
    T::insn_bltu, T::insn_bgeu, T::insn_jalr, T::insn_jal, T::insn_ecall, T::insn_csrrc,
    T::insn_csrrci, T::insn_csrrs, T::insn_csrrsi, T::insn_csrrw, T::insn_csrrwi, T::insn_flw,
    T::insn_fsw, T::insn_fmadd_s, T::insn_fmsub_s, T::insn_fnmsub_s, T::insn_fnmadd_s,
    T::insn_fadd_s, T::insn_fsub_s, T::insn_fmul_s, T::insn_fdiv_s, T::insn_fsqrt_s,
    T::insn_fsgnj_s, T::insn_fsgnjn_s, T::insn_fsgnjx_s, T::insn_fmin_s, T::insn_fmax_s,
    T::insn_fcvt_w_s, T::insn_fcvt_wu_s, T::insn_fmv_x_w, T::insn_feq_s, T::insn_flt_s,
    T::insn_fle_s, T::insn_fclass_s, T::insn_fcvt_s_w, T::insn_fcvt_s_wu, T::insn_fmv_w_x,
    T::insn_fcvt_l_s, T::insn_fcvt_lu_s, T::insn_fcvt_s_l, T::insn_fcvt_s_lu, T::insn_fld,
    T::insn_fsd, T::insn_fmadd_d, T::insn_fmsub_d, T::insn_fnmsub_d, T::insn_fnmadd_d,
    T::insn_fadd_d, T::insn_fsub_d, T::insn_fmul_d, T::insn_fdiv_d, T::insn_fsqrt_d,
    T::insn_fsgnj_d, T::insn_fsgnjn_d, T::insn_fsgnjx_d, T::insn_fmin_d, T::insn_fmax_d,
    T::insn_fcvt_s_d, T::insn_fcvt_d_s, T::insn_feq_d, T::insn_flt_d, T::insn_fle_d,
    T::insn_fclass_d, T::insn_fcvt_w_d, T::insn_fcvt_wu_d, T::insn_fcvt_d_w, T::insn_fcvt_d_wu,
    T::insn_fcvt_l_d, T::insn_fcvt_lu_d, T::insn_fmv_x_d, T::insn_fcvt_d_l, T::insn_fcvt_d_lu,
    T::insn_fmv_d_x,
];

fn blank(t: insn_type_t) -> insn_t {
    let cont = matches!(t, T::insn_jal | T::insn_jalr | T::insn_ecall);
    insn_t { rd: 0, rs1: 0, rs2: 0, rs3: 0, imm: 0, csr: 0, type_: t, rvc: false, cont }
}

/// A record of `t` with these operands where the layout of `t` has a place
/// for them, and zero elsewhere.
fn record(t: insn_type_t, rs2: u8, imm: i32) -> insn_t {
    let z = blank(t);
    match format_of(t) {
        format_t::r => insn_t { rd: 5, rs1: 6, rs2, ..z },
        format_t::i => insn_t { rd: 5, rs1: 6, imm, ..z },
        format_t::s | format_t::b => insn_t { rs1: 6, rs2, imm, ..z },
        format_t::u | format_t::j => insn_t { rd: 5, imm, ..z },
        format_t::csr => insn_t { rd: 5, rs1: 6, csr: 0x345, ..z },
        format_t::r4 => insn_t { rd: 5, rs1: 6, rs2, rs3: 7, ..z },
        format_t::bare => z,
    }
}

const IMMEDIATES: [i32; 22] = [
    0,
    1,
    -1,
    2,
    -2,
    31,
    63,
    1024,
    1055,
    1087,
    2047,
    -2048,
    4094,
    -4096,
    0x1000,
    -0x1000,
    0xf_fffe,
    -0x10_0000,
    0x7fff_f000,
    i32::MIN,
    0x555,
    -0x556,
];

#[test]
fn every_instruction_decodes_to_what_was_encoded() {
    assert_eq!(ALL.len(), 133);
    for t in ALL {
        let mut encoded = 0;
        for imm in IMMEDIATES {
            for rs2 in [0u8, 1, 2, 3, 17, 31] {
                let r = record(t, rs2, imm);
                match insn_encode(&r) {
                    Some(data) => {
                        assert!(is_encodable(&r));
                        assert_eq!(data & 3, 3);
                        assert_eq!(insn_try_decode(data), Some(r), "{:?} {:#010x}", t, data);
                        encoded += 1;
                    }
                    None => assert!(!is_encodable(&r)),
                }
            }
        }
        assert!(encoded > 0, "{:?}", t);
    }
}

#[test]
fn known_encodings_are_produced() {
    let table = [
        (insn_t { rd: 1, rs1: 2, rs2: 3, ..blank(T::insn_add) }, 0x0031_00b3u32),
        (insn_t { rd: 10, rs1: 11, imm: -1, ..blank(T::insn_addi) }, 0xfff5_8513),
        (insn_t { rs1: 1, ..blank(T::insn_jalr) }, 0x0000_8067),
        (insn_t { rs1: 2, rs2: 1, imm: 8, ..blank(T::insn_sd) }, 0x0011_3423),
        (insn_t { rd: 1, rs1: 2, imm: 8, ..blank(T::insn_ld) }, 0x0081_3083),
        (insn_t { rd: 10, imm: 0x1234_5000, ..blank(T::insn_lui) }, 0x1234_5537),
        (insn_t { rd: 1, ..blank(T::insn_auipc) }, 0x0000_0097),
        (insn_t { rd: 1, ..blank(T::insn_jal) }, 0x0000_00ef),
        (insn_t { imm: -4, ..blank(T::insn_jal) }, 0xffdf_f06f),
        (insn_t { imm: -4096, ..blank(T::insn_beq) }, 0x8000_0063),
        (insn_t { imm: -2048, ..blank(T::insn_addi) }, 0x8000_0013),
        (blank(T::insn_addi), 0x0000_0013),
        (blank(T::insn_ecall), 0x0000_0073),
        (blank(T::insn_fence), 0x0000_000f),
        (blank(T::insn_fence_i), 0x0000_100f),
        (insn_t { rd: 1, rs1: 2, csr: 3, ..blank(T::insn_csrrw) }, 0x0031_10f3),
        (insn_t { rd: 17, imm: 93, ..blank(T::insn_addi) }, 0x05d0_0893),
        (insn_t { rd: 5, rs1: 5, imm: 0x401, ..blank(T::insn_srai) }, 0x4012_d293),
    ];
    for (r, data) in table {
        assert_eq!(insn_encode(&r), Some(data), "{:?}", r);
        assert_eq!(insn_try_decode(data), Some(r));
    }
}

#[test]
fn records_without_an_encoding_are_refused() {
    let add = insn_t { rd: 1, rs1: 2, rs2: 3, ..blank(T::insn_add) };
    assert!(is_encodable(&add));
    let refused = [
        blank(T::num_insns),
        insn_t { rvc: true, ..add },
        insn_t { cont: true, ..add },
        insn_t { rd: 32, ..add },
        insn_t { rs1: 32, ..add },
        insn_t { rs2: 255, ..add },
        insn_t { rs3: 1, ..add },
        insn_t { imm: 1, ..add },
        insn_t { csr: 1, ..add },
        insn_t { cont: false, ..blank(T::insn_jal) },
        insn_t { cont: false, ..blank(T::insn_ecall) },
        insn_t { rd: 1, ..blank(T::insn_ecall) },
        insn_t { rs1: 1, ..blank(T::insn_fence) },
        insn_t { imm: 2048, ..blank(T::insn_addi) },
        insn_t { imm: -2049, ..blank(T::insn_addi) },
        insn_t { rs2: 1, ..blank(T::insn_addi) },
        insn_t { imm: 64, ..blank(T::insn_slli) },
        insn_t { imm: -1, ..blank(T::insn_srli) },
        insn_t { imm: 5, ..blank(T::insn_srai) },
        insn_t { imm: 1088, ..blank(T::insn_srai) },
        insn_t { imm: 32, ..blank(T::insn_slliw) },
        insn_t { imm: 1056, ..blank(T::insn_sraiw) },
        insn_t { imm: 2048, ..blank(T::insn_sd) },
        insn_t { rd: 1, ..blank(T::insn_sd) },
        insn_t { imm: 3, ..blank(T::insn_beq) },
        insn_t { imm: 4096, ..blank(T::insn_beq) },
        insn_t { imm: -4098, ..blank(T::insn_bne) },
        insn_t { imm: 1, ..blank(T::insn_jal) },
        insn_t { imm: 0x10_0000, ..blank(T::insn_jal) },
        insn_t { rs1: 1, ..blank(T::insn_jal) },
        insn_t { imm: 0xfff, ..blank(T::insn_lui) },
        insn_t { imm: 1, ..blank(T::insn_auipc) },
        insn_t { csr: 4096, ..blank(T::insn_csrrw) },
        insn_t { imm: 4, ..blank(T::insn_csrrs) },
        insn_t { rs2: 0, ..blank(T::insn_fcvt_s_d) },
        insn_t { rs2: 1, ..blank(T::insn_fcvt_d_s) },
        insn_t { rs2: 1, ..blank(T::insn_fsqrt_d) },
        insn_t { rs2: 3, ..blank(T::insn_fcvt_l_d) },
        insn_t { rs2: 4, ..blank(T::insn_fcvt_d_lu) },
        insn_t { rs2: 1, ..blank(T::insn_fmv_x_w) },
        insn_t { rs2: 2, ..blank(T::insn_fclass_d) },
        insn_t { imm: 1, ..blank(T::insn_fmadd_s) },
    ];
    for r in refused {
        assert!(!is_encodable(&r), "{:?}", r);
        assert_eq!(insn_encode(&r), None, "{:?}", r);
    }
    assert!(is_encodable(&insn_t { rs2: 1, ..blank(T::insn_fcvt_s_d) }));
    assert!(is_encodable(&insn_t { rs2: 2, ..blank(T::insn_fcvt_l_d) }));
    assert!(is_encodable(&insn_t { rs3: 31, ..blank(T::insn_fnmadd_d) }));
    assert!(is_encodable(&insn_t { csr: 4095, ..blank(T::insn_csrrci) }));
}

#[test]
fn selector_fields_of_some_instructions() {
    let s = selector(T::insn_sub);
    assert_eq!((s.opcode, s.funct3, s.funct7), (0xc, 0, 0x20));
    let s = selector(T::insn_fmadd_d);
    assert_eq!((s.opcode, s.funct3, s.funct7), (0x10, 0, 1));
    let s = selector(T::insn_csrrci);
    assert_eq!((s.opcode, s.funct3, s.funct7), (0x1c, 7, 0));
    let s = selector(T::insn_fclass_d);
    assert_eq!((s.opcode, s.funct3, s.funct7), (0x14, 1, 0x71));
    assert_eq!(format_of(T::insn_add), format_t::r);
    assert_eq!(format_of(T::insn_jalr), format_t::i);
    assert_eq!(format_of(T::insn_fsd), format_t::s);
    assert_eq!(format_of(T::insn_bgeu), format_t::b);
    assert_eq!(format_of(T::insn_auipc), format_t::u);
    assert_eq!(format_of(T::insn_jal), format_t::j);
    assert_eq!(format_of(T::insn_csrrw), format_t::csr);
    assert_eq!(format_of(T::insn_fnmsub_s), format_t::r4);
    assert_eq!(format_of(T::insn_ecall), format_t::bare);
    assert_eq!(format_of(T::num_insns), format_t::bare);
}
