//! Guest addresses, the architectural state of the hart, and the machine:
//! a hart with its memory, which loads a program, lays out its stack and
//! runs it block by block up to the next environment call.

use crate::interp::{block_spec, exec_block_interp, stop_t};
use crate::mem::{guest_mem_t, place, window_t};
use crate::mmu::{
    alloc_fits, alloc_mem, alloc_mmu, elf_loaded, host_page_size, load_error_t, load_result, mmu_t,
};
use crate::reg::{fp_reg_t, gp_reg_type_t};
use crate::syscall::{syscall_lookup, syscall_spec, syscall_t};
use vstd::prelude::*;

verus! {

/// How far the host address of a guest byte lies above its guest address.
pub const GUEST_MEMORY_OFFSET: u64 = 0x0888_0000_0000;

/// The host address that stands behind the guest address `addr`.
pub fn to_host_addr(addr: u64) -> (r: u64)
    requires
        addr + GUEST_MEMORY_OFFSET <= u64::MAX,
    ensures
        r == addr + GUEST_MEMORY_OFFSET,
{
    addr + GUEST_MEMORY_OFFSET
}

/// The guest address that the host address `addr` stands behind.
pub fn to_guest_addr(addr: u64) -> (r: u64)
    requires
        addr >= GUEST_MEMORY_OFFSET,
    ensures
        r == addr - GUEST_MEMORY_OFFSET,
{
    addr - GUEST_MEMORY_OFFSET
}

/// Why the engine handed control back.
#[derive(Copy, Clone, Debug, PartialEq, Eq, Structural)]
pub enum exit_reason_t {
    none,
    direct_branch,
    indirect_branch,
    ecall,
}

/// The architectural state of the one hart: the two register files, the
/// address of the instruction that is fetched next, and, once a block has
/// ended, where execution goes on and why the block ended.
#[derive(Clone, Debug, PartialEq, Eq)]
pub struct state_t {
    pub exit_reason: exit_reason_t,
    pub reenter_pc: u64,
    pub gp_regs: [u64; 32],
    pub fp_regs: [fp_reg_t; 32],
    pub pc: u64,
}

/// The architectural state as a mathematical value.
pub struct arch_t {
    pub gp: Seq<u64>,
    pub fp: Seq<fp_reg_t>,
    pub pc: u64,
    pub reenter_pc: u64,
    pub exit_reason: exit_reason_t,
}

impl arch_t {
    /// Both register files hold 32 registers.
    pub open spec fn wf(self) -> bool {
        self.gp.len() == 32 && self.fp.len() == 32
    }

    /// The state with `v` in the general-purpose register `i`.
    pub open spec fn set_gp(self, i: int, v: u64) -> arch_t {
        arch_t { gp: self.gp.update(i, v), ..self }
    }

    /// The state with the bits `v` in the floating-point register `i`.
    pub open spec fn set_fp(self, i: int, v: u64) -> arch_t {
        arch_t { fp: self.fp.update(i, fp_reg_t { v }), ..self }
    }

    /// The state with register 0 forced back to zero.
    pub open spec fn pin_zero(self) -> arch_t {
        self.set_gp(0, 0)
    }
}

impl View for state_t {
    type V = arch_t;

    open spec fn view(&self) -> arch_t {
        arch_t {
            gp: self.gp_regs@,
            fp: self.fp_regs@,
            pc: self.pc,
            reenter_pc: self.reenter_pc,
            exit_reason: self.exit_reason,
        }
    }
}

impl state_t {
    /// The state of a hart that has not run: every register zero, `pc`
    /// zero, no exit recorded.
    pub fn new() -> (r: state_t)
        ensures
            r.exit_reason == exit_reason_t::none,
            r.reenter_pc == 0,
            r.pc == 0,
            forall|i: int| 0 <= i < 32 ==> r.gp_regs@[i] == 0,
            forall|i: int| 0 <= i < 32 ==> r.fp_regs@[i] == (fp_reg_t { v: 0 }),
    {
        state_t {
            exit_reason: exit_reason_t::none,
            reenter_pc: 0,
            gp_regs: [0u64;32],
            fp_regs: [fp_reg_t { v: 0 };32],
            pc: 0,
        }
    }

    /// Stores `v` in the general-purpose register `i`.
    pub fn set_gp(&mut self, i: u8, v: u64)
        requires
            i < 32,
        ensures
            final(self)@ == old(self)@.set_gp(i as int, v),
    {
        self.gp_regs[i as usize] = v;
    }

    /// Stores the bits `v` in the floating-point register `i`.
    pub fn set_fp(&mut self, i: u8, v: u64)
        requires
            i < 32,
        ensures
            final(self)@ == old(self)@.set_fp(i as int, v),
    {
        self.fp_regs[i as usize] = fp_reg_t { v };
    }
}

/// How many bytes the guest's stack takes.
pub const STACK_SIZE: u64 = 0x200_0000;

/// One emulated process: the hart, the bookkeeping of its address space,
/// its memory, and the size of the pages in which memory is set aside.
#[derive(Clone, Debug)]
pub struct machine_t {
    pub state: state_t,
    pub mmu: mmu_t,
    pub mem: guest_mem_t,
    pub page: u64,
}

/// How a run of blocks ends: the state and the memory it leaves, and why
/// the last block ended, or the instruction that could not be executed.
pub struct run_t {
    pub arch: arch_t,
    pub mem: window_t,
    pub end: Result<exit_reason_t, stop_t>,
}

/// The state in which a block is entered: no exit is recorded.
pub open spec fn entered(a: arch_t) -> arch_t {
    arch_t { exit_reason: exit_reason_t::none, ..a }
}

/// The state with which execution goes on after a block: `pc` is where the
/// block said to resume.
pub open spec fn resumed(a: arch_t) -> arch_t {
    arch_t { pc: a.reenter_pc, ..a }
}

/// A block ended with a branch or a jump, so the next block follows.
pub open spec fn goes_on(r: exit_reason_t) -> bool {
    r == exit_reason_t::direct_branch || r == exit_reason_t::indirect_branch
}

/// A run of at most `blocks` blocks from the state `a` over the memory
/// `m`: block after block, each entered where the one before said to
/// resume, until one ends with anything but a branch or a jump, or an
/// instruction cannot be executed, or `blocks` blocks have run.
pub open spec fn run_spec(a: arch_t, m: window_t, blocks: nat) -> run_t
    decreases blocks,
{
    if blocks == 0 {
        run_t { arch: a, mem: m, end: Ok(a.exit_reason) }
    } else {
        let b = block_spec(entered(a), m);
        match b.end {
            Some(e) => run_t { arch: b.arch, mem: b.mem, end: Err(e) },
            None => if goes_on(b.arch.exit_reason) && blocks > 1 {
                run_spec(resumed(b.arch), b.mem, (blocks - 1) as nat)
            } else {
                run_t { arch: resumed(b.arch), mem: b.mem, end: Ok(b.arch.exit_reason) }
            },
        }
    }
}

/// Where the laying out of the guest's stack stands: the bookkeeping, the
/// memory, the stack pointer, and whether every step so far went through.
pub struct setup_t {
    pub mmu: mmu_t,
    pub mem: window_t,
    pub sp: u64,
    pub ok: bool,
}

/// The stack after the doubleword `v` is pushed: the stack pointer is eight
/// lower and `v` stands there. Fails, and changes nothing else, where the
/// stack pointer is below eight or the doubleword would not lie in the
/// memory. Once the laying out has failed nothing changes.
#[verifier::opaque]
pub open spec fn pushed(s: setup_t, v: u64) -> setup_t {
    if !s.ok {
        s
    } else if s.sp >= 8 && s.mem.maps((s.sp - 8) as u64, 8) {
        setup_t { mem: s.mem.write((s.sp - 8) as u64, 8, v)->0, sp: (s.sp - 8) as u64, ..s }
    } else {
        setup_t { ok: false, ..s }
    }
}

/// The state after one argument is placed: its bytes and one more, which
/// stays zero, are handed out by the allocator, the bytes stand there, and
/// their address is pushed. Fails at the first of these steps that fails,
/// with the steps before it done. Once the laying out has failed nothing
/// changes.
#[verifier::opaque]
pub open spec fn arg_placed(s: setup_t, arg: Seq<u8>, page: u64) -> setup_t {
    let size = arg.len() + 1;
    let at = s.mmu.alloc;
    let mem = alloc_mem(s.mmu, s.mem, size as i64, page);
    let handed = setup_t { mmu: alloc_mmu(s.mmu, size as i64, page), mem, ..s };
    if !s.ok {
        s
    } else if size > i64::MAX || !alloc_fits(s.mmu, s.mem, size as i64, page) {
        setup_t { ok: false, ..s }
    } else if !(mem.host_base <= at + GUEST_MEMORY_OFFSET && at + GUEST_MEMORY_OFFSET + arg.len()
        <= mem.host_end()) {
        setup_t { ok: false, ..handed }
    } else {
        pushed(
            setup_t {
                mem: window_t { bytes: place(mem.bytes, mem.offset_of(at), arg), ..mem },
                ..handed
            },
            at,
        )
    }
}

/// The state after the last `k` of the arguments `argv` are placed, the
/// last one first.
pub open spec fn args_placed(s: setup_t, argv: Seq<Vec<u8>>, page: u64, k: nat) -> setup_t
    decreases k,
{
    if k == 0 {
        s
    } else {
        arg_placed(args_placed(s, argv, page, (k - 1) as nat), argv[argv.len() - k]@, page)
    }
}

/// The stack as a program finds it when it starts. The stack is handed out
/// by the allocator. At its top three doublewords stay zero: the end of
/// the auxiliary vector, of the environment and of the arguments. Below
/// them stand the addresses of the arguments, all of `argv` but the first,
/// and below those their number, at which the stack pointer points. The
/// laying out stops at the first step that fails, with the steps before it
/// done.
pub open spec fn setup_spec(mmu: mmu_t, mem: window_t, argv: Seq<Vec<u8>>, page: u64) -> setup_t {
    if argv.len() >= 1 && alloc_fits(mmu, mem, STACK_SIZE as i64, page) {
        pushed(
            args_placed(
                setup_t {
                    mmu: alloc_mmu(mmu, STACK_SIZE as i64, page),
                    mem: alloc_mem(mmu, mem, STACK_SIZE as i64, page),
                    sp: (mmu.alloc + STACK_SIZE - 24) as u64,
                    ok: true,
                },
                argv,
                page,
                (argv.len() - 1) as nat,
            ),
            (argv.len() - 1) as u64,
        )
    } else {
        setup_t { mmu, mem, sp: 0, ok: false }
    }
}

/// Once a step has failed, the laying out of the stack stays as it is.
pub proof fn lemma_setup_stays_failed(s: setup_t, argv: Seq<Vec<u8>>, page: u64, k: nat, n: nat, v: u64)
    requires
        k <= n,
        !args_placed(s, argv, page, k).ok,
    ensures
        args_placed(s, argv, page, n) == args_placed(s, argv, page, k),
        pushed(args_placed(s, argv, page, n), v) == args_placed(s, argv, page, k),
    decreases n - k,
{
    reveal(pushed);
    reveal(arg_placed);
    if k < n {
        lemma_setup_stays_failed(s, argv, page, k, (n - 1) as nat, v);
    }
}

impl machine_t {
    /// Pushes the doubleword `v` below `sp` and returns the new stack
    /// pointer, or `None` where that fails.
    fn push(&mut self, sp: u64, v: u64) -> (r: Option<u64>)
        requires
            old(self).wf(),
        ensures
            final(self).wf(),
            final(self).state == old(self).state,
            final(self).page == old(self).page,
            ({
                let t = pushed(
                    setup_t { mmu: old(self).mmu, mem: old(self).mem@, sp, ok: true },
                    v,
                );
                &&& r is Some == t.ok
                &&& final(self).mmu == t.mmu
                &&& final(self).mem@ == t.mem
                &&& r matches Some(low) ==> low == t.sp
                &&& r is None ==> sp == t.sp
            }),
    {
        proof {
            reveal(pushed);
        }
        if sp < 8 {
            return None;
        }
        if self.mem.store_u64(sp - 8, v) {
            Some(sp - 8)
        } else {
            None
        }
    }

    /// Places the argument `arg`, pushes its address below `sp` and
    /// returns the new stack pointer, or `None` where that fails.
    fn place_arg(&mut self, sp: u64, arg: &[u8]) -> (r: Option<u64>)
        requires
            old(self).wf(),
        ensures
            final(self).wf(),
            final(self).state == old(self).state,
            final(self).page == old(self).page,
            ({
                let t = arg_placed(
                    setup_t { mmu: old(self).mmu, mem: old(self).mem@, sp, ok: true },
                    arg@,
                    old(self).page,
                );
                &&& r is Some == t.ok
                &&& final(self).mmu == t.mmu
                &&& final(self).mem@ == t.mem
                &&& r matches Some(low) ==> low == t.sp
                &&& r is None ==> sp == t.sp
            }),
    {
        proof {
            reveal(arg_placed);
        }
        let len: usize = arg.len();
        if len as u64 >= i64::MAX as u64 {
            return None;
        }
        let size: i64 = (len as u64 + 1) as i64;
        let at: u64 = match self.mmu.mmu_alloc_with(&mut self.mem, size, self.page) {
            Some(at) => at,
            None => {
                return None;
            },
        };
        if !mmu_t::mmu_write(&mut self.mem, at, arg) {
            return None;
        }
        self.push(sp, at)
    }

    /// The memory is a window that ends at a host address.
    pub open spec fn wf(&self) -> bool {
        self.mem.wf()
    }

    /// A machine with nothing loaded: the hart at zero, no memory, and
    /// pages as large as the host's.
    pub fn new() -> (r: machine_t)
        ensures
            r.wf(),
            r.mmu == (mmu_t { entry: 0, host_alloc: 0, alloc: 0, base: 0 }),
            r.mem@ == (window_t { host_base: GUEST_MEMORY_OFFSET, bytes: Seq::<u8>::empty() }),
            r.state.exit_reason == exit_reason_t::none,
            r.state.reenter_pc == 0,
            r.state.pc == 0,
            forall|i: int| 0 <= i < 32 ==> r.state.gp_regs@[i] == 0,
            forall|i: int| 0 <= i < 32 ==> r.state.fp_regs@[i] == (fp_reg_t { v: 0 }),
    {
        machine_t {
            state: state_t::new(),
            mmu: mmu_t::new(),
            mem: guest_mem_t { host_base: GUEST_MEMORY_OFFSET, bytes: Vec::new() },
            page: host_page_size() as u64,
        }
    }

    /// Loads the program in the file `elf` and puts `pc` at its entry
    /// point. Where the load stops early, what was loaded before stays.
    pub fn machine_load_program(&mut self, elf: &[u8]) -> (r: Result<(), load_error_t>)
        requires
            old(self).wf(),
        ensures
            final(self).wf(),
            final(self).page == old(self).page,
            ({
                let l = elf_loaded(old(self).mmu, old(self).mem@, elf@, old(self).page);
                &&& final(self).mmu == l.mmu
                &&& final(self).mem@ == l.mem
                &&& r == load_result(l.end)
                &&& final(self).state@ == (arch_t { pc: l.mmu.entry, ..old(self).state@ })
            }),
    {
        let r = self.mmu.mmu_load_elf_with(&mut self.mem, elf, self.page);
        self.state.pc = self.mmu.get_entry();
        r
    }

    /// Runs blocks until one ends with an environment call, or an
    /// instruction cannot be executed, or `max_blocks` blocks have run.
    /// After each block `pc` is where the block said to resume. Returns
    /// why the last block ended.
    pub fn machine_step(&mut self, max_blocks: u64) -> (r: Result<exit_reason_t, stop_t>)
        requires
            old(self).wf(),
        ensures
            final(self).wf(),
            final(self).mmu == old(self).mmu,
            final(self).page == old(self).page,
            run_spec(old(self).state@, old(self).mem@, max_blocks as nat) == (run_t {
                arch: final(self).state@,
                mem: final(self).mem@,
                end: r,
            }),
    {
        if max_blocks == 0 {
            return Ok(self.state.exit_reason);
        }
        let mut left: u64 = max_blocks;
        loop
            invariant
                left >= 1,
                self.wf(),
                self.mmu == old(self).mmu,
                self.page == old(self).page,
                run_spec(old(self).state@, old(self).mem@, max_blocks as nat) == run_spec(
                    self.state@,
                    self.mem@,
                    left as nat,
                ),
            decreases left,
        {
            self.state.exit_reason = exit_reason_t::none;
            match exec_block_interp(&mut self.state, &mut self.mem) {
                Ok(_) => {},
                Err(e) => {
                    return Err(e);
                },
            }
            self.state.pc = self.state.reenter_pc;
            let reason = self.state.exit_reason;
            let branch: bool = reason == exit_reason_t::direct_branch || reason
                == exit_reason_t::indirect_branch;
            if !branch || left == 1 {
                return Ok(reason);
            }
            left = left - 1;
        }
    }

    /// Lays out the stack with which the program starts, for the arguments
    /// `argv`, of which the first is left out, and points the stack pointer
    /// at it. Returns `false` at the first step that fails, with the steps
    /// before it done and the registers as they were.
    pub fn machine_setup(&mut self, argv: &Vec<Vec<u8>>) -> (ok: bool)
        requires
            old(self).wf(),
        ensures
            final(self).wf(),
            final(self).page == old(self).page,
            ({
                let t = setup_spec(old(self).mmu, old(self).mem@, argv@, old(self).page);
                &&& ok == t.ok
                &&& final(self).mmu == t.mmu
                &&& final(self).mem@ == t.mem
                &&& final(self).state@ == (if ok {
                    old(self).state@.set_gp(2, t.sp)
                } else {
                    old(self).state@
                })
            }),
    {
        let argc: usize = argv.len();
        if argc == 0 {
            return false;
        }
        let stack: u64 = match self.mmu.mmu_alloc_with(&mut self.mem, STACK_SIZE as i64, self.page) {
            Some(stack) => stack,
            None => {
                return false;
            },
        };
        let ghost s0 = setup_t {
            mmu: self.mmu,
            mem: self.mem@,
            sp: (stack + STACK_SIZE - 24) as u64,
            ok: true,
        };
        let args: usize = argc - 1;
        let mut sp: u64 = stack + STACK_SIZE - 24;
        let mut k: usize = 0;
        while k < args
            invariant
                k <= args,
                args == argv@.len() - 1,
                argc == argv@.len(),
                setup_spec(old(self).mmu, old(self).mem@, argv@, old(self).page) == pushed(
                    args_placed(s0, argv@, self.page, args as nat),
                    args as u64,
                ),
                self.wf(),
                self.page == old(self).page,
                self.state == old(self).state,
                args_placed(s0, argv@, self.page, k as nat) == (setup_t {
                    mmu: self.mmu,
                    mem: self.mem@,
                    sp,
                    ok: true,
                }),
            decreases args - k,
        {
            let arg: &Vec<u8> = &argv[argc - 1 - k];
            let placed = self.place_arg(sp, arg.as_slice());
            k = k + 1;
            match placed {
                Some(low) => {
                    sp = low;
                },
                None => {
                    proof {
                        lemma_setup_stays_failed(
                            s0,
                            argv@,
                            self.page,
                            k as nat,
                            args as nat,
                            args as u64,
                        );
                    }
                    return false;
                },
            }
        }
        match self.push(sp, args as u64) {
            Some(low) => {
                self.state.set_gp(2, low);
                true
            },
            None => false,
        }
    }

    /// Finds what is done for the system call with the number
    /// `syscall_num`, or `None` where the number is not known.
    pub fn do_syscall(&self, syscall_num: u64) -> (r: Option<syscall_t>)
        ensures
            r == syscall_spec(syscall_num),
    {
        syscall_lookup(syscall_num)
    }

    /// The value of the general-purpose register `reg`.
    pub fn machine_get_gp_reg(&self, reg: gp_reg_type_t) -> (r: u64)
        requires
            reg != gp_reg_type_t::num_gp_regs,
        ensures
            r == self.state.gp_regs@[reg.spec_index() as int],
    {
        self.state.gp_regs[reg.index()]
    }

    /// Stores `val` in the general-purpose register `reg`.
    pub fn machine_set_gp_reg(&mut self, reg: gp_reg_type_t, val: u64)
        requires
            reg != gp_reg_type_t::num_gp_regs,
        ensures
            final(self).state@ == old(self).state@.set_gp(reg.spec_index() as int, val),
            final(self).mmu == old(self).mmu,
            final(self).mem == old(self).mem,
            final(self).page == old(self).page,
    {
        self.state.gp_regs[reg.index()] = val;
    }
}

} // verus!
