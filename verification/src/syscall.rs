//! The numbers of the system calls and what is done for each, the flags for
//! opening a file, and the call that moves the break.

use crate::machine::machine_t;
use crate::mem::window_t;
use crate::mmu::{alloc_fits, alloc_mem, alloc_mmu, mmu_t};
use vstd::prelude::*;

verus! {

pub const SYS_EXIT: u32 = 93;

pub const SYS_EXIT_GROUP: u32 = 94;

pub const SYS_GETPID: u32 = 172;

pub const SYS_KILL: u32 = 129;

pub const SYS_TGKILL: u32 = 131;

pub const SYS_READ: u32 = 63;

pub const SYS_WRITE: u32 = 64;

pub const SYS_OPENAT: u32 = 56;

pub const SYS_CLOSE: u32 = 57;

pub const SYS_LSEEK: u32 = 62;

pub const SYS_BRK: u32 = 214;

pub const SYS_LINKAT: u32 = 37;

pub const SYS_UNLINKAT: u32 = 35;

pub const SYS_MKDIRAT: u32 = 34;

pub const SYS_RENAMEAT: u32 = 38;

pub const SYS_CHDIR: u32 = 49;

pub const SYS_GETCWD: u32 = 17;

pub const SYS_FSTAT: u32 = 80;

pub const SYS_FSTATAT: u32 = 79;

pub const SYS_FACCESSAT: u32 = 48;

pub const SYS_PREAD: u32 = 67;

pub const SYS_PWRITE: u32 = 68;

pub const SYS_UNAME: u32 = 160;

pub const SYS_GETUID: u32 = 174;

pub const SYS_GETEUID: u32 = 175;

pub const SYS_GETGID: u32 = 176;

pub const SYS_GETEGID: u32 = 177;

pub const SYS_GETTID: u32 = 178;

pub const SYS_SYSINFO: u32 = 179;

pub const SYS_MMAP: u32 = 222;

pub const SYS_MUNMAP: u32 = 215;

pub const SYS_MREMAP: u32 = 216;

pub const SYS_MPROTECT: u32 = 226;

pub const SYS_PRLIMIT64: u32 = 261;

pub const SYS_GETMAINVARS: u32 = 2011;

pub const SYS_RT_SIGACTION: u32 = 134;

pub const SYS_WRITEV: u32 = 66;

pub const SYS_GETTIMEOFDAY: u32 = 169;

pub const SYS_TIMES: u32 = 153;

pub const SYS_FCNTL: u32 = 25;

pub const SYS_FTRUNCATE: u32 = 46;

pub const SYS_GETDENTS: u32 = 61;

pub const SYS_DUP: u32 = 23;

pub const SYS_DUP3: u32 = 24;

pub const SYS_READLINKAT: u32 = 78;

pub const SYS_RT_SIGPROCMASK: u32 = 135;

pub const SYS_IOCTL: u32 = 29;

pub const SYS_GETRLIMIT: u32 = 163;

pub const SYS_SETRLIMIT: u32 = 164;

pub const SYS_GETRUSAGE: u32 = 165;

pub const SYS_CLOCK_GETTIME: u32 = 113;

pub const SYS_SET_TID_ADDRESS: u32 = 96;

pub const SYS_SET_ROBUST_LIST: u32 = 99;

pub const SYS_MADVISE: u32 = 233;

pub const SYS_STATX: u32 = 291;

/// From this number on a system call has one of the older numbers.
pub const OLD_SYSCALL_THRESHOLD: u32 = 1024;

pub const SYS_OPEN: u32 = 1024;

pub const SYS_LINK: u32 = 1025;

pub const SYS_UNLINK: u32 = 1026;

pub const SYS_MKDIR: u32 = 1030;

pub const SYS_ACCESS: u32 = 1033;

pub const SYS_STAT: u32 = 1038;

pub const SYS_LSTAT: u32 = 1039;

pub const SYS_TIME: u32 = 1062;

/// The highest number in the table of system calls.
pub const SYSCALL_MAX: u32 = 291;

/// The highest of the older numbers, counted from the threshold.
pub const OLD_SYSCALL_MAX: u32 = 38;

pub const NEWLIB_O_RDONLY: i32 = 0x0;

pub const NEWLIB_O_WRONLY: i32 = 0x1;

pub const NEWLIB_O_RDWR: i32 = 0x2;

pub const NEWLIB_O_APPEND: i32 = 0x8;

pub const NEWLIB_O_CREAT: i32 = 0x200;

pub const NEWLIB_O_TRUNC: i32 = 0x400;

pub const NEWLIB_O_EXCL: i32 = 0x800;

/// What is done for a system call.
#[derive(Copy, Clone, Debug, PartialEq, Eq, Structural)]
pub enum syscall_t {
    exit,
    read,
    write,
    openat,
    close,
    fstat,
    lseek,
    brk,
    gettimeofday,
    open,
    /// The call is known and nothing is done for it.
    unimplemented,
}

/// The flags of the host for opening a file, one for each flag that the
/// guest's C library knows.
#[derive(Copy, Clone, Debug, PartialEq, Eq, Structural)]
pub struct host_flags_t {
    pub rdonly: i32,
    pub wronly: i32,
    pub rdwr: i32,
    pub append: i32,
    pub creat: i32,
    pub trunc: i32,
    pub excl: i32,
}

/// The table of system calls by their numbers.
pub open spec fn syscall_table(n: u32) -> Option<syscall_t> {
    if n == SYS_EXIT || n == SYS_EXIT_GROUP {
        Some(syscall_t::exit)
    } else if n == SYS_READ {
        Some(syscall_t::read)
    } else if n == SYS_WRITE {
        Some(syscall_t::write)
    } else if n == SYS_OPENAT {
        Some(syscall_t::openat)
    } else if n == SYS_CLOSE {
        Some(syscall_t::close)
    } else if n == SYS_FSTAT {
        Some(syscall_t::fstat)
    } else if n == SYS_LSEEK {
        Some(syscall_t::lseek)
    } else if n == SYS_BRK {
        Some(syscall_t::brk)
    } else if n == SYS_GETTIMEOFDAY {
        Some(syscall_t::gettimeofday)
    } else if n == SYS_PREAD
        || n == SYS_STATX
        || n == SYS_FSTATAT
        || n == SYS_LINKAT
        || n == SYS_UNLINKAT
        || n == SYS_MKDIRAT
        || n == SYS_RENAMEAT
        || n == SYS_GETCWD
        || n == SYS_UNAME
        || n == SYS_GETPID
        || n == SYS_GETUID
        || n == SYS_GETEUID
        || n == SYS_GETGID
        || n == SYS_GETEGID
        || n == SYS_GETTID
        || n == SYS_TGKILL
        || n == SYS_MMAP
        || n == SYS_MUNMAP
        || n == SYS_MREMAP
        || n == SYS_MPROTECT
        || n == SYS_RT_SIGACTION
        || n == SYS_TIMES
        || n == SYS_WRITEV
        || n == SYS_FACCESSAT
        || n == SYS_FCNTL
        || n == SYS_FTRUNCATE
        || n == SYS_GETDENTS
        || n == SYS_DUP
        || n == SYS_DUP3
        || n == SYS_RT_SIGPROCMASK
        || n == SYS_CLOCK_GETTIME
        || n == SYS_CHDIR {
        Some(syscall_t::unimplemented)
    } else {
        None
    }
}

/// The table of the older system calls by their numbers, counted from the
/// threshold.
pub open spec fn old_syscall_table(n: u32) -> Option<syscall_t> {
    if n == SYS_OPEN - OLD_SYSCALL_THRESHOLD {
        Some(syscall_t::open)
    } else if n == SYS_LINK - OLD_SYSCALL_THRESHOLD
        || n == SYS_UNLINK - OLD_SYSCALL_THRESHOLD
        || n == SYS_MKDIR - OLD_SYSCALL_THRESHOLD
        || n == SYS_ACCESS - OLD_SYSCALL_THRESHOLD
        || n == SYS_STAT - OLD_SYSCALL_THRESHOLD
        || n == SYS_LSTAT - OLD_SYSCALL_THRESHOLD
        || n == SYS_TIME - OLD_SYSCALL_THRESHOLD {
        Some(syscall_t::unimplemented)
    } else {
        None
    }
}

/// What is done for the system call with the number `num`, of which the
/// low 32 bits count: a number up to the highest of the table is looked up
/// there, a number from the threshold on among the older ones. `None`
/// where the number is in neither table.
pub open spec fn syscall_spec(num: u64) -> Option<syscall_t> {
    let n = (num % 0x1_0000_0000) as u32;
    if n <= SYSCALL_MAX {
        syscall_table(n)
    } else if n >= OLD_SYSCALL_THRESHOLD && n - OLD_SYSCALL_THRESHOLD <= OLD_SYSCALL_MAX {
        old_syscall_table((n - OLD_SYSCALL_THRESHOLD) as u32)
    } else {
        None
    }
}

/// Looks up a number in the table of system calls.
pub fn syscall_lookup_new(n: u32) -> (r: Option<syscall_t>)
    ensures
        r == syscall_table(n),
{
    if n == SYS_EXIT || n == SYS_EXIT_GROUP {
        Some(syscall_t::exit)
    } else if n == SYS_READ {
        Some(syscall_t::read)
    } else if n == SYS_WRITE {
        Some(syscall_t::write)
    } else if n == SYS_OPENAT {
        Some(syscall_t::openat)
    } else if n == SYS_CLOSE {
        Some(syscall_t::close)
    } else if n == SYS_FSTAT {
        Some(syscall_t::fstat)
    } else if n == SYS_LSEEK {
        Some(syscall_t::lseek)
    } else if n == SYS_BRK {
        Some(syscall_t::brk)
    } else if n == SYS_GETTIMEOFDAY {
        Some(syscall_t::gettimeofday)
    } else if n == SYS_PREAD
        || n == SYS_STATX
        || n == SYS_FSTATAT
        || n == SYS_LINKAT
        || n == SYS_UNLINKAT
        || n == SYS_MKDIRAT
        || n == SYS_RENAMEAT
        || n == SYS_GETCWD
        || n == SYS_UNAME
        || n == SYS_GETPID
        || n == SYS_GETUID
        || n == SYS_GETEUID
        || n == SYS_GETGID
        || n == SYS_GETEGID
        || n == SYS_GETTID
        || n == SYS_TGKILL
        || n == SYS_MMAP
        || n == SYS_MUNMAP
        || n == SYS_MREMAP
        || n == SYS_MPROTECT
        || n == SYS_RT_SIGACTION
        || n == SYS_TIMES
        || n == SYS_WRITEV
        || n == SYS_FACCESSAT
        || n == SYS_FCNTL
        || n == SYS_FTRUNCATE
        || n == SYS_GETDENTS
        || n == SYS_DUP
        || n == SYS_DUP3
        || n == SYS_RT_SIGPROCMASK
        || n == SYS_CLOCK_GETTIME
        || n == SYS_CHDIR {
        Some(syscall_t::unimplemented)
    } else {
        None
    }
}

/// Looks up a number, counted from the threshold, in the table of the
/// older system calls.
pub fn syscall_lookup_old(n: u32) -> (r: Option<syscall_t>)
    ensures
        r == old_syscall_table(n),
{
    if n == SYS_OPEN - OLD_SYSCALL_THRESHOLD {
        Some(syscall_t::open)
    } else if n == SYS_LINK - OLD_SYSCALL_THRESHOLD
        || n == SYS_UNLINK - OLD_SYSCALL_THRESHOLD
        || n == SYS_MKDIR - OLD_SYSCALL_THRESHOLD
        || n == SYS_ACCESS - OLD_SYSCALL_THRESHOLD
        || n == SYS_STAT - OLD_SYSCALL_THRESHOLD
        || n == SYS_LSTAT - OLD_SYSCALL_THRESHOLD
        || n == SYS_TIME - OLD_SYSCALL_THRESHOLD {
        Some(syscall_t::unimplemented)
    } else {
        None
    }
}

/// Finds what is done for the system call with the number `num`.
pub fn syscall_lookup(num: u64) -> (r: Option<syscall_t>)
    ensures
        r == syscall_spec(num),
{
    let n: u32 = (num % 0x1_0000_0000) as u32;
    if n <= SYSCALL_MAX {
        syscall_lookup_new(n)
    } else if n >= OLD_SYSCALL_THRESHOLD && n - OLD_SYSCALL_THRESHOLD <= OLD_SYSCALL_MAX {
        syscall_lookup_old(n - OLD_SYSCALL_THRESHOLD)
    } else {
        None
    }
}

/// `bit` if `flags` has any bit of `mask` set, else no bit.
pub open spec fn flag_if(flags: i32, mask: i32, bit: i32) -> i32 {
    if flags & mask != 0 {
        bit
    } else {
        0
    }
}

/// The host's flags for opening a file that stand for the flags `flags` of
/// the guest's C library: the host's flag for each flag that is set.
pub open spec fn convert_flags_spec(flags: i32, host: host_flags_t) -> i32 {
    flag_if(flags, NEWLIB_O_RDONLY, host.rdonly) | flag_if(flags, NEWLIB_O_WRONLY, host.wronly)
        | flag_if(flags, NEWLIB_O_RDWR, host.rdwr) | flag_if(flags, NEWLIB_O_APPEND, host.append)
        | flag_if(flags, NEWLIB_O_CREAT, host.creat) | flag_if(flags, NEWLIB_O_TRUNC, host.trunc)
        | flag_if(flags, NEWLIB_O_EXCL, host.excl)
}

/// `bit` if `flags` has any bit of `mask` set, else no bit.
fn pick_flag(flags: i32, mask: i32, bit: i32) -> (r: i32)
    ensures
        r == flag_if(flags, mask, bit),
{
    if flags & mask != 0 {
        bit
    } else {
        0
    }
}

/// Turns the flags for opening a file of the guest's C library into those
/// of the host.
pub fn convert_flags(flags: i32, host: &host_flags_t) -> (r: i32)
    ensures
        r == convert_flags_spec(flags, *host),
{
    pick_flag(flags, NEWLIB_O_RDONLY, host.rdonly) | pick_flag(flags, NEWLIB_O_WRONLY, host.wronly)
        | pick_flag(flags, NEWLIB_O_RDWR, host.rdwr) | pick_flag(flags, NEWLIB_O_APPEND, host.append)
        | pick_flag(flags, NEWLIB_O_CREAT, host.creat) | pick_flag(flags, NEWLIB_O_TRUNC, host.trunc)
        | pick_flag(flags, NEWLIB_O_EXCL, host.excl)
}

/// Whether closing the guest's file descriptor `fd` closes a descriptor of
/// the host: the three standard streams stay open.
pub fn sys_close_forwards(fd: u64) -> (r: bool)
    ensures
        r == (fd > 2),
{
    fd > 2
}

/// The break that the guest asks for with `a0`: zero asks for the break as
/// it is.
pub open spec fn brk_target(m: mmu_t, a0: u64) -> u64 {
    if a0 == 0 {
        m.alloc
    } else {
        a0
    }
}

/// The break can be moved to where the guest asks: not below where the
/// allocator started, not below where it is, and not further than the
/// allocator can hand out.
pub open spec fn brk_fits(m: mmu_t, w: window_t, a0: u64, page: u64) -> bool {
    let addr = brk_target(m, a0);
    addr >= m.base && addr >= m.alloc && addr - m.alloc <= i64::MAX && alloc_fits(
        m,
        w,
        (addr - m.alloc) as i64,
        page,
    )
}

/// Moves the break to the address in the first argument register, or
/// leaves it where the register holds zero, and returns the break. Returns
/// `None`, and changes nothing, where the break cannot be moved there.
pub fn sys_brk(m: &mut machine_t) -> (r: Option<u64>)
    requires
        old(m).wf(),
    ensures
        final(m).wf(),
        final(m).state == old(m).state,
        final(m).page == old(m).page,
        r == (if brk_fits(old(m).mmu, old(m).mem@, old(m).state.gp_regs@[10], old(m).page) {
            Some(brk_target(old(m).mmu, old(m).state.gp_regs@[10]))
        } else {
            None
        }),
        final(m).mmu == (if r is Some {
            alloc_mmu(
                old(m).mmu,
                (brk_target(old(m).mmu, old(m).state.gp_regs@[10]) - old(m).mmu.alloc) as i64,
                old(m).page,
            )
        } else {
            old(m).mmu
        }),
        final(m).mem@ == (if r is Some {
            alloc_mem(
                old(m).mmu,
                old(m).mem@,
                (brk_target(old(m).mmu, old(m).state.gp_regs@[10]) - old(m).mmu.alloc) as i64,
                old(m).page,
            )
        } else {
            old(m).mem@
        }),
{
    let a0: u64 = m.state.gp_regs[10];
    let addr: u64 = if a0 == 0 {
        m.mmu.alloc
    } else {
        a0
    };
    if addr < m.mmu.base || addr < m.mmu.alloc {
        return None;
    }
    let incr: u64 = addr - m.mmu.alloc;
    if incr > i64::MAX as u64 {
        return None;
    }
    match m.mmu.mmu_alloc_with(&mut m.mem, incr as i64, m.page) {
        Some(_) => Some(addr),
        None => None,
    }
}

} // verus!
