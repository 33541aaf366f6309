//! The names of the registers, the storage of a floating-point register,
//! and the control and status registers that can be read.

use vstd::prelude::*;

verus! {

/// The general-purpose registers by the names of the calling convention, in
/// the order of their numbers. `num_gp_regs` is their count, not a register.
#[derive(Copy, Clone, Debug, PartialEq, Eq, Structural)]
pub enum gp_reg_type_t {
    zero,
    ra,
    sp,
    gp,
    tp,
    t0,
    t1,
    t2,
    s0,
    s1,
    a0,
    a1,
    a2,
    a3,
    a4,
    a5,
    a6,
    a7,
    s2,
    s3,
    s4,
    s5,
    s6,
    s7,
    s8,
    s9,
    s10,
    s11,
    t3,
    t4,
    t5,
    t6,
    num_gp_regs,
}

impl gp_reg_type_t {
    /// The register's number; for `num_gp_regs`, the number of registers.
    pub open spec fn spec_index(self) -> usize {
        match self {
            gp_reg_type_t::zero => 0,
            gp_reg_type_t::ra => 1,
            gp_reg_type_t::sp => 2,
            gp_reg_type_t::gp => 3,
            gp_reg_type_t::tp => 4,
            gp_reg_type_t::t0 => 5,
            gp_reg_type_t::t1 => 6,
            gp_reg_type_t::t2 => 7,
            gp_reg_type_t::s0 => 8,
            gp_reg_type_t::s1 => 9,
            gp_reg_type_t::a0 => 10,
            gp_reg_type_t::a1 => 11,
            gp_reg_type_t::a2 => 12,
            gp_reg_type_t::a3 => 13,
            gp_reg_type_t::a4 => 14,
            gp_reg_type_t::a5 => 15,
            gp_reg_type_t::a6 => 16,
            gp_reg_type_t::a7 => 17,
            gp_reg_type_t::s2 => 18,
            gp_reg_type_t::s3 => 19,
            gp_reg_type_t::s4 => 20,
            gp_reg_type_t::s5 => 21,
            gp_reg_type_t::s6 => 22,
            gp_reg_type_t::s7 => 23,
            gp_reg_type_t::s8 => 24,
            gp_reg_type_t::s9 => 25,
            gp_reg_type_t::s10 => 26,
            gp_reg_type_t::s11 => 27,
            gp_reg_type_t::t3 => 28,
            gp_reg_type_t::t4 => 29,
            gp_reg_type_t::t5 => 30,
            gp_reg_type_t::t6 => 31,
            gp_reg_type_t::num_gp_regs => 32,
        }
    }

    /// The register's number; for `num_gp_regs`, the number of registers.
    #[verifier::when_used_as_spec(spec_index)]
    pub fn index(self) -> (r: usize)
        ensures
            r == self.spec_index(),
            r <= 32,
            self != gp_reg_type_t::num_gp_regs ==> r < 32,
    {
        match self {
            gp_reg_type_t::zero => 0,
            gp_reg_type_t::ra => 1,
            gp_reg_type_t::sp => 2,
            gp_reg_type_t::gp => 3,
            gp_reg_type_t::tp => 4,
            gp_reg_type_t::t0 => 5,
            gp_reg_type_t::t1 => 6,
            gp_reg_type_t::t2 => 7,
            gp_reg_type_t::s0 => 8,
            gp_reg_type_t::s1 => 9,
            gp_reg_type_t::a0 => 10,
            gp_reg_type_t::a1 => 11,
            gp_reg_type_t::a2 => 12,
            gp_reg_type_t::a3 => 13,
            gp_reg_type_t::a4 => 14,
            gp_reg_type_t::a5 => 15,
            gp_reg_type_t::a6 => 16,
            gp_reg_type_t::a7 => 17,
            gp_reg_type_t::s2 => 18,
            gp_reg_type_t::s3 => 19,
            gp_reg_type_t::s4 => 20,
            gp_reg_type_t::s5 => 21,
            gp_reg_type_t::s6 => 22,
            gp_reg_type_t::s7 => 23,
            gp_reg_type_t::s8 => 24,
            gp_reg_type_t::s9 => 25,
            gp_reg_type_t::s10 => 26,
            gp_reg_type_t::s11 => 27,
            gp_reg_type_t::t3 => 28,
            gp_reg_type_t::t4 => 29,
            gp_reg_type_t::t5 => 30,
            gp_reg_type_t::t6 => 31,
            gp_reg_type_t::num_gp_regs => 32,
        }
    }
}

/// The floating-point registers by the names of the calling convention, in
/// the order of their numbers. `num_fp_regs` is their count, not a register.
#[derive(Copy, Clone, Debug, PartialEq, Eq, Structural)]
pub enum fp_reg_type_t {
    ft0,
    ft1,
    ft2,
    ft3,
    ft4,
    ft5,
    ft6,
    ft7,
    fs0,
    fs1,
    fa0,
    fa1,
    fa2,
    fa3,
    fa4,
    fa5,
    fa6,
    fa7,
    fs2,
    fs3,
    fs4,
    fs5,
    fs6,
    fs7,
    fs8,
    fs9,
    fs10,
    fs11,
    ft8,
    ft9,
    ft10,
    ft11,
    num_fp_regs,
}

impl fp_reg_type_t {
    /// The register's number; for `num_fp_regs`, the number of registers.
    pub open spec fn spec_index(self) -> usize {
        match self {
            fp_reg_type_t::ft0 => 0,
            fp_reg_type_t::ft1 => 1,
            fp_reg_type_t::ft2 => 2,
            fp_reg_type_t::ft3 => 3,
            fp_reg_type_t::ft4 => 4,
            fp_reg_type_t::ft5 => 5,
            fp_reg_type_t::ft6 => 6,
            fp_reg_type_t::ft7 => 7,
            fp_reg_type_t::fs0 => 8,
            fp_reg_type_t::fs1 => 9,
            fp_reg_type_t::fa0 => 10,
            fp_reg_type_t::fa1 => 11,
            fp_reg_type_t::fa2 => 12,
            fp_reg_type_t::fa3 => 13,
            fp_reg_type_t::fa4 => 14,
            fp_reg_type_t::fa5 => 15,
            fp_reg_type_t::fa6 => 16,
            fp_reg_type_t::fa7 => 17,
            fp_reg_type_t::fs2 => 18,
            fp_reg_type_t::fs3 => 19,
            fp_reg_type_t::fs4 => 20,
            fp_reg_type_t::fs5 => 21,
            fp_reg_type_t::fs6 => 22,
            fp_reg_type_t::fs7 => 23,
            fp_reg_type_t::fs8 => 24,
            fp_reg_type_t::fs9 => 25,
            fp_reg_type_t::fs10 => 26,
            fp_reg_type_t::fs11 => 27,
            fp_reg_type_t::ft8 => 28,
            fp_reg_type_t::ft9 => 29,
            fp_reg_type_t::ft10 => 30,
            fp_reg_type_t::ft11 => 31,
            fp_reg_type_t::num_fp_regs => 32,
        }
    }

    /// The register's number; for `num_fp_regs`, the number of registers.
    #[verifier::when_used_as_spec(spec_index)]
    pub fn index(self) -> (r: usize)
        ensures
            r == self.spec_index(),
            r <= 32,
            self != fp_reg_type_t::num_fp_regs ==> r < 32,
    {
        match self {
            fp_reg_type_t::ft0 => 0,
            fp_reg_type_t::ft1 => 1,
            fp_reg_type_t::ft2 => 2,
            fp_reg_type_t::ft3 => 3,
            fp_reg_type_t::ft4 => 4,
            fp_reg_type_t::ft5 => 5,
            fp_reg_type_t::ft6 => 6,
            fp_reg_type_t::ft7 => 7,
            fp_reg_type_t::fs0 => 8,
            fp_reg_type_t::fs1 => 9,
            fp_reg_type_t::fa0 => 10,
            fp_reg_type_t::fa1 => 11,
            fp_reg_type_t::fa2 => 12,
            fp_reg_type_t::fa3 => 13,
            fp_reg_type_t::fa4 => 14,
            fp_reg_type_t::fa5 => 15,
            fp_reg_type_t::fa6 => 16,
            fp_reg_type_t::fa7 => 17,
            fp_reg_type_t::fs2 => 18,
            fp_reg_type_t::fs3 => 19,
            fp_reg_type_t::fs4 => 20,
            fp_reg_type_t::fs5 => 21,
            fp_reg_type_t::fs6 => 22,
            fp_reg_type_t::fs7 => 23,
            fp_reg_type_t::fs8 => 24,
            fp_reg_type_t::fs9 => 25,
            fp_reg_type_t::fs10 => 26,
            fp_reg_type_t::fs11 => 27,
            fp_reg_type_t::ft8 => 28,
            fp_reg_type_t::ft9 => 29,
            fp_reg_type_t::ft10 => 30,
            fp_reg_type_t::ft11 => 31,
            fp_reg_type_t::num_fp_regs => 32,
        }
    }
}

/// One floating-point register: 64 bits of storage that hold either a
/// double, in all of them, or a single, in the low half.
#[derive(Copy, Clone, Debug, PartialEq, Eq, Structural)]
pub struct fp_reg_t {
    pub v: u64,
}

/// The low half of `v` replaced by `w`.
pub open spec fn with_low_half(v: u64, w: u32) -> u64 {
    (v - v % 0x1_0000_0000 + w) as u64
}

/// `w` below 32 set bits: a single stored in the form that marks the slot as
/// not holding a double.
pub open spec fn boxed(w: u32) -> u64 {
    (0xffff_ffff_0000_0000 + w) as u64
}

/// Replaces the low half of `v` by `w`.
pub fn merge_low_half(v: u64, w: u32) -> (r: u64)
    ensures
        r == with_low_half(v, w),
        r % 0x1_0000_0000 == w,
        r / 0x1_0000_0000 == v / 0x1_0000_0000,
{
    v - v % 0x1_0000_0000 + w as u64
}

impl fp_reg_t {
    /// The whole slot: the bits of the double it holds.
    pub fn wide(&self) -> (r: u64)
        ensures
            r == self.v,
    {
        self.v
    }

    /// The low half of the slot: the bits of the single it holds.
    pub fn narrow(&self) -> (r: u32)
        ensures
            r == self.v % 0x1_0000_0000,
    {
        (self.v % 0x1_0000_0000) as u32
    }

    /// Stores the bits of a double.
    pub fn set_wide(&mut self, bits: u64)
        ensures
            final(self).v == bits,
    {
        self.v = bits;
    }

    /// Stores the bits of a single in the low half; the high half stays.
    pub fn set_narrow(&mut self, bits: u32)
        ensures
            final(self).v == with_low_half(old(self).v, bits),
            final(self).v % 0x1_0000_0000 == bits,
            final(self).v / 0x1_0000_0000 == old(self).v / 0x1_0000_0000,
    {
        self.v = merge_low_half(self.v, bits);
    }

    /// Stores the bits of a single in the low half and sets every bit of the
    /// high half.
    pub fn set_boxed(&mut self, bits: u32)
        ensures
            final(self).v == boxed(bits),
            final(self).v % 0x1_0000_0000 == bits,
    {
        self.v = 0xffff_ffff_0000_0000 + bits as u64;
    }
}

/// The control and status registers that can be read: the floating-point
/// flags, the rounding mode, and the two as one register.
#[derive(Copy, Clone, Debug, PartialEq, Eq, Structural)]
pub enum csr_t {
    fflags,
    frm,
    fcsr,
}

impl csr_t {
    /// The register with the number `val`, if the number is one of the three.
    pub open spec fn spec_from_index(val: u16) -> Option<csr_t> {
        if val == 0x001 {
            Some(csr_t::fflags)
        } else if val == 0x002 {
            Some(csr_t::frm)
        } else if val == 0x003 {
            Some(csr_t::fcsr)
        } else {
            None
        }
    }

    /// The register's number.
    pub open spec fn spec_index(self) -> u16 {
        match self {
            csr_t::fflags => 0x001,
            csr_t::frm => 0x002,
            csr_t::fcsr => 0x003,
        }
    }

    /// The register with the number `val`, or `None` where no register with
    /// that number can be read.
    #[verifier::when_used_as_spec(spec_from_index)]
    pub fn from_index(val: u16) -> (r: Option<csr_t>)
        ensures
            r == csr_t::spec_from_index(val),
            r matches Some(c) ==> c.spec_index() == val,
    {
        match val {
            0x001 => Some(csr_t::fflags),
            0x002 => Some(csr_t::frm),
            0x003 => Some(csr_t::fcsr),
            _ => None,
        }
    }

    /// The register's number.
    #[verifier::when_used_as_spec(spec_index)]
    pub fn index(self) -> (r: u16)
        ensures
            r == self.spec_index(),
            csr_t::spec_from_index(r) == Some(self),
    {
        match self {
            csr_t::fflags => 0x001,
            csr_t::frm => 0x002,
            csr_t::fcsr => 0x003,
        }
    }
}

} // verus!
