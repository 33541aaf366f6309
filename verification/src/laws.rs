//! Theorems about the engine: division without traps, register 0, and the
//! number of cycles of a straight run that ends with a jump.

use crate::alu::{alu_result, magnitude, quot, rem, signed64, wrap64};
use crate::decode::{decode_spec, ends_block, lemma_decoded_wf};
use crate::insn::{insn_t, insn_type_t};
use crate::interp::{
    block_spec, class_t, cycle_spec, even, fetch_spec, insn_size, retired, spec_insn_class,
    step_spec, through,
};
use crate::machine::{arch_t, exit_reason_t};
use crate::mem::{is_width, low_bytes, window_t};
use vstd::prelude::*;

verus! {

/// Division never traps. Whatever the dividend `x`: divided by zero, the
/// unsigned quotient is all ones, the signed quotient is minus one, and
/// both remainders are `x`; and the most negative value divided by minus
/// one gives itself, with remainder zero.
pub proof fn lemma_division_edges(x: u64)
    ensures
        alu_result(insn_type_t::insn_divu, x, 0) == u64::MAX,
        signed64(alu_result(insn_type_t::insn_div, x, 0)) == -1,
        alu_result(insn_type_t::insn_remu, x, 0) == x,
        alu_result(insn_type_t::insn_rem, x, 0) == x,
        alu_result(insn_type_t::insn_div, 0x8000_0000_0000_0000, u64::MAX)
            == 0x8000_0000_0000_0000,
        signed64(0x8000_0000_0000_0000) == -9223372036854775808,
        signed64(u64::MAX) == -1,
        alu_result(insn_type_t::insn_rem, 0x8000_0000_0000_0000, u64::MAX) == 0,
{
}

/// The quotient toward zero and its remainder belong together: they make
/// up the dividend, and the remainder is smaller than the divisor and has
/// the sign of the dividend.
pub proof fn lemma_quot_rem(x: int, y: int)
    requires
        y != 0,
    ensures
        x == y * quot(x, y) + rem(x, y),
        magnitude(rem(x, y)) < magnitude(y),
        x >= 0 ==> rem(x, y) >= 0,
        x <= 0 ==> rem(x, y) <= 0,
{
    let a = magnitude(x);
    let b = magnitude(y);
    vstd::arithmetic::div_mod::lemma_fundamental_div_mod(a, b);
    vstd::arithmetic::div_mod::lemma_mod_bound(a, b);
    let q = a / b;
    assert(a == b * q + a % b);
    assert(y * quot(x, y) == (if x >= 0 { b * q } else { -(b * q) })) by (nonlinear_arith)
        requires
            b == magnitude(y),
            q == magnitude(x) / magnitude(y),
            y != 0,
    ;
}

/// Register 0 reads zero after every instruction that executes, whatever
/// the instruction wrote and wherever.
pub proof fn lemma_register_zero(a: arch_t, m: window_t, insn: insn_t)
    requires
        a.wf(),
        insn.wf(),
    ensures
        step_spec(a, m, insn) matches Ok(eff) ==> eff.arch.gp[0] == 0 && eff.arch.wf(),
{
}

/// Register 0 reads zero after floating-point work is completed, whatever
/// its result and wherever it went.
pub proof fn lemma_register_zero_retired(a: arch_t, insn: insn_t, value: u64)
    requires
        a.wf(),
        insn.wf(),
    ensures
        retired(a, insn, value).gp[0] == 0,
        retired(a, insn, value).wf(),
{
}

/// The instructions that compute a register from registers, the immediate
/// and `pc`, and touch nothing else.
pub open spec fn is_arith(t: insn_type_t) -> bool {
    spec_insn_class(t) == class_t::alu_reg || spec_insn_class(t) == class_t::alu_imm
        || spec_insn_class(t) == class_t::pc_upper
}

/// The two unconditional jumps.
pub open spec fn is_jump(t: insn_type_t) -> bool {
    spec_insn_class(t) == class_t::jump || spec_insn_class(t) == class_t::jump_reg
}

/// The record of the instruction at the guest address `pc`, if one is
/// defined there.
pub open spec fn insn_at(m: window_t, pc: u64) -> Option<insn_t> {
    match fetch_spec(m, pc) {
        Some(data) => decode_spec(data),
        None => None,
    }
}

/// From `pc` on the memory holds `n` arithmetic instructions and behind
/// them an unconditional jump.
pub open spec fn straight_line(m: window_t, pc: u64, n: nat) -> bool
    decreases n,
{
    match insn_at(m, pc) {
        Some(insn) => if n == 0 {
            is_jump(insn.type_)
        } else {
            is_arith(insn.type_) && straight_line(
                m,
                (pc + insn_size(insn)) as u64,
                (n - 1) as nat,
            )
        },
        None => false,
    }
}

/// The state after the `n` instructions from `a.pc` on have executed one
/// after the other.
pub open spec fn straight_state(a: arch_t, m: window_t, n: nat) -> arch_t
    decreases n,
{
    if n == 0 {
        a
    } else {
        match insn_at(m, a.pc) {
            Some(insn) => match step_spec(a, m, insn) {
                Ok(eff) => straight_state(
                    arch_t { pc: (a.pc + insn_size(insn)) as u64, ..eff.arch },
                    m,
                    (n - 1) as nat,
                ),
                Err(_) => a,
            },
            None => a,
        }
    }
}

proof fn lemma_class_ends(t: insn_type_t)
    ensures
        is_jump(t) ==> ends_block(t),
        is_arith(t) ==> !ends_block(t),
{
}

/// Where `n` arithmetic instructions stand in front of an unconditional
/// jump, one run of the engine executes exactly `n + 1` instructions and
/// ends with the jump: the memory is as it was, the exit is a direct branch
/// to `pc` plus the offset for a jump relative to `pc`, and an indirect
/// branch to the register plus the offset, without its lowest bit, for a
/// jump through a register, which reads the register once it has linked.
pub proof fn lemma_block_count(a: arch_t, m: window_t, n: nat)
    requires
        a.wf(),
        m.wf(),
        straight_line(m, a.pc, n),
    ensures
        ({
            let b = block_spec(a, m);
            let s = straight_state(a, m, n);
            let j = insn_at(m, s.pc)->0;
            let linked = s.set_gp(j.rd as int, wrap64(s.pc + insn_size(j)));
            &&& b.cycles == n + 1
            &&& b.end is None
            &&& b.mem == m
            &&& insn_at(m, s.pc) is Some
            &&& spec_insn_class(j.type_) == class_t::jump ==> b.arch.exit_reason
                == exit_reason_t::direct_branch && b.arch.reenter_pc == wrap64(s.pc + j.imm)
            &&& spec_insn_class(j.type_) == class_t::jump_reg ==> b.arch.exit_reason
                == exit_reason_t::indirect_branch && b.arch.reenter_pc == even(through(linked, j))
        }),
    decreases n,
{
    reveal(cycle_spec);
    let data = fetch_spec(m, a.pc)->0;
    let insn = insn_at(m, a.pc)->0;
    lemma_decoded_wf(data);
    lemma_class_ends(insn.type_);
    lemma_register_zero(a, m, insn);
    if n > 0 {
        let eff = step_spec(a, m, insn)->Ok_0;
        let next = arch_t { pc: (a.pc + insn_size(insn)) as u64, ..eff.arch };
        assert(eff.mem == m);
        assert(!eff.cont);
        assert(cycle_spec(a, m) == Ok::<crate::interp::effect_t, crate::interp::stop_t>(
            crate::interp::effect_t { arch: next, ..eff },
        ));
        lemma_block_count(next, m, (n - 1) as nat);
    }
}

/// A load finds what a store of the same width put at the same address:
/// the low bytes of the value that was stored. And the store leaves the
/// window where and as long as it was.
pub proof fn lemma_load_after_store(w: window_t, addr: u64, n: int, v: u64)
    requires
        is_width(n),
    ensures
        w.write(addr, n, v) matches Some(after) ==> after.read(addr, n) == Some(low_bytes(v, n))
            && after.host_base == w.host_base && after.bytes.len() == w.bytes.len(),
{
}

/// A store changes no byte outside the bytes it writes.
pub proof fn lemma_store_is_local(w: window_t, addr: u64, n: int, v: u64, i: int)
    requires
        is_width(n),
        0 <= i < w.bytes.len(),
        i < w.offset_of(addr) || i >= w.offset_of(addr) + n,
    ensures
        w.write(addr, n, v) matches Some(after) ==> after.bytes[i] == w.bytes[i],
{
}

} // verus!
