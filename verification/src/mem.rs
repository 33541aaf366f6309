//! The guest's memory: a window of host addresses over a vector of bytes,
//! with little-endian loads and stores that refuse what lies outside.

use crate::machine::{GUEST_MEMORY_OFFSET, to_host_addr};
use vstd::prelude::*;

verus! {

/// The two bytes of `s` from `i` on as a little-endian number.
pub open spec fn le16(s: Seq<u8>, i: int) -> int {
    s[i] + 0x100 * s[i + 1]
}

/// The four bytes of `s` from `i` on as a little-endian number.
pub open spec fn le32(s: Seq<u8>, i: int) -> int {
    le16(s, i) + 0x1_0000 * le16(s, i + 2)
}

/// The eight bytes of `s` from `i` on as a little-endian number.
pub open spec fn le64(s: Seq<u8>, i: int) -> int {
    le32(s, i) + 0x1_0000_0000 * le32(s, i + 4)
}

/// `s` with `v` at `i`.
pub open spec fn put8(s: Seq<u8>, i: int, v: u8) -> Seq<u8> {
    s.update(i, v)
}

/// `s` with the two bytes of `v` from `i` on, the low byte first.
pub open spec fn put16(s: Seq<u8>, i: int, v: u16) -> Seq<u8> {
    s.update(i, (v % 0x100) as u8).update(i + 1, (v / 0x100) as u8)
}

/// `s` with the four bytes of `v` from `i` on, the low byte first.
pub open spec fn put32(s: Seq<u8>, i: int, v: u32) -> Seq<u8> {
    put16(put16(s, i, (v % 0x1_0000) as u16), i + 2, (v / 0x1_0000) as u16)
}

/// `s` with the eight bytes of `v` from `i` on, the low byte first.
pub open spec fn put64(s: Seq<u8>, i: int, v: u64) -> Seq<u8> {
    put32(put32(s, i, (v % 0x1_0000_0000) as u32), i + 4, (v / 0x1_0000_0000) as u32)
}

/// The `n` bytes of `s` from `i` on as a little-endian number, for `n` of 1,
/// 2, 4 or 8.
pub open spec fn le(s: Seq<u8>, i: int, n: int) -> int {
    if n == 1 {
        s[i] as int
    } else if n == 2 {
        le16(s, i)
    } else if n == 4 {
        le32(s, i)
    } else {
        le64(s, i)
    }
}

/// `s` with the low `n` bytes of `v` from `i` on, the low byte first, for
/// `n` of 1, 2, 4 or 8.
pub open spec fn put(s: Seq<u8>, i: int, n: int, v: u64) -> Seq<u8> {
    if n == 1 {
        put8(s, i, (v % 0x100) as u8)
    } else if n == 2 {
        put16(s, i, (v % 0x1_0000) as u16)
    } else if n == 4 {
        put32(s, i, (v % 0x1_0000_0000) as u32)
    } else {
        put64(s, i, v)
    }
}

/// `s` with `data` laid over it from `at` on.
pub open spec fn place(s: Seq<u8>, at: int, data: Seq<u8>) -> Seq<u8> {
    Seq::new(
        s.len(),
        |i: int|
            if at <= i < at + data.len() {
                data[i - at]
            } else {
                s[i]
            },
    )
}

/// `n` zero bytes.
pub open spec fn zeros(n: nat) -> Seq<u8> {
    Seq::new(n, |i: int| 0u8)
}

/// The low `n` bytes of `v` as a number, for `n` of 1, 2, 4 or 8.
pub open spec fn low_bytes(v: u64, n: int) -> u64 {
    if n == 1 {
        v % 0x100
    } else if n == 2 {
        v % 0x1_0000
    } else if n == 4 {
        v % 0x1_0000_0000
    } else {
        v
    }
}

/// The widths of a memory access: a byte, a halfword, a word, a doubleword.
pub open spec fn is_width(n: int) -> bool {
    n == 1 || n == 2 || n == 4 || n == 8
}

/// What a guest memory holds: the host address of its first byte, and its
/// bytes.
pub struct window_t {
    pub host_base: u64,
    pub bytes: Seq<u8>,
}

impl window_t {
    /// The window ends at a host address.
    pub open spec fn wf(self) -> bool {
        self.host_base + self.bytes.len() <= u64::MAX
    }

    /// The host address behind the window's last byte.
    pub open spec fn host_end(self) -> int {
        self.host_base + self.bytes.len()
    }

    /// Where in `bytes` the byte with the guest address `addr` lies.
    pub open spec fn offset_of(self, addr: u64) -> int {
        addr + GUEST_MEMORY_OFFSET - self.host_base
    }

    /// The `n` bytes from the guest address `addr` on lie in the window.
    pub open spec fn maps(self, addr: u64, n: int) -> bool {
        self.host_base <= addr + GUEST_MEMORY_OFFSET && addr + GUEST_MEMORY_OFFSET + n
            <= self.host_end()
    }

    /// The window ends at the host address `end` or above, or can be made
    /// to end there without holding more bytes than a vector can.
    pub open spec fn can_reach(self, end: int) -> bool {
        end <= self.host_end() || end - self.host_base <= isize::MAX
    }

    /// The little-endian number in the `n` bytes from the guest address
    /// `addr` on, or `None` if not all of them lie in the window.
    pub open spec fn read(self, addr: u64, n: int) -> Option<u64> {
        if self.maps(addr, n) {
            Some(le(self.bytes, self.offset_of(addr), n) as u64)
        } else {
            None
        }
    }

    /// The window after the low `n` bytes of `v` are stored from the guest
    /// address `addr` on, or `None` if not all of them lie in the window.
    pub open spec fn write(self, addr: u64, n: int, v: u64) -> Option<window_t> {
        if self.maps(addr, n) {
            Some(window_t { bytes: put(self.bytes, self.offset_of(addr), n, v), ..self })
        } else {
            None
        }
    }
}

/// The guest's memory: one window of host addresses, from `host_base` on,
/// with the bytes it holds. A guest address stands for the host address
/// that lies `GUEST_MEMORY_OFFSET` above it.
#[derive(Clone, Debug, PartialEq, Eq)]
pub struct guest_mem_t {
    pub host_base: u64,
    pub bytes: Vec<u8>,
}

impl View for guest_mem_t {
    type V = window_t;

    open spec fn view(&self) -> window_t {
        window_t { host_base: self.host_base, bytes: self.bytes@ }
    }
}

impl guest_mem_t {
    /// The window ends at a host address.
    pub open spec fn wf(&self) -> bool {
        self@.wf()
    }

    /// A window of `size` zero bytes that starts at the host address
    /// `host_base`, or `None` if it would end above the last host address.
    pub fn new(host_base: u64, size: usize) -> (r: Option<guest_mem_t>)
        ensures
            host_base + size > u64::MAX ==> r is None,
            host_base + size <= u64::MAX ==> r is Some && r->0.wf() && r->0.host_base == host_base
                && r->0.bytes@ == Seq::new(size as nat, |i: int| 0u8),
    {
        if size as u64 > u64::MAX - host_base {
            return None;
        }
        let mut bytes: Vec<u8> = Vec::new();
        bytes.resize(size, 0u8);
        assert(bytes@ =~= Seq::new(size as nat, |i: int| 0u8));
        Some(guest_mem_t { host_base, bytes })
    }

    /// The place in `bytes` of the `n` bytes from the guest address `addr`
    /// on, or `None` if not all of them lie in the window.
    pub fn locate(&self, addr: u64, n: usize) -> (r: Option<usize>)
        requires
            self.wf(),
        ensures
            match r {
                Some(i) => self@.maps(addr, n as int) && i == self@.offset_of(addr) && i + n
                    <= self.bytes@.len() <= usize::MAX,
                None => !self@.maps(addr, n as int),
            },
    {
        if addr > u64::MAX - GUEST_MEMORY_OFFSET {
            return None;
        }
        let host: u64 = to_host_addr(addr);
        if host < self.host_base {
            return None;
        }
        let off: u64 = host - self.host_base;
        let len: usize = self.bytes.len();
        if off > len as u64 || (len as u64) - off < n as u64 {
            return None;
        }
        Some(off as usize)
    }

    /// The byte at the guest address `addr`, or `None` outside the window.
    pub fn load_u8(&self, addr: u64) -> (r: Option<u8>)
        requires
            self.wf(),
        ensures
            r.is_some() == self@.maps(addr, 1),
            r matches Some(v) ==> self@.read(addr, 1) == Some(v as u64),
    {
        match self.locate(addr, 1) {
            Some(i) => Some(self.bytes[i]),
            None => None,
        }
    }

    /// The two bytes from the guest address `addr` on as a little-endian
    /// number, or `None` if not both lie in the window.
    pub fn load_u16(&self, addr: u64) -> (r: Option<u16>)
        requires
            self.wf(),
        ensures
            r.is_some() == self@.maps(addr, 2),
            r matches Some(v) ==> self@.read(addr, 2) == Some(v as u64),
    {
        match self.locate(addr, 2) {
            Some(i) => Some(self.bytes[i] as u16 + 0x100 * (self.bytes[i + 1] as u16)),
            None => None,
        }
    }

    /// The four bytes from the guest address `addr` on as a little-endian
    /// number, or `None` if not all lie in the window.
    pub fn load_u32(&self, addr: u64) -> (r: Option<u32>)
        requires
            self.wf(),
        ensures
            r.is_some() == self@.maps(addr, 4),
            r matches Some(v) ==> self@.read(addr, 4) == Some(v as u64),
    {
        match self.locate(addr, 4) {
            Some(i) => {
                let lo: u32 = self.bytes[i] as u32 + 0x100 * (self.bytes[i + 1] as u32);
                let hi: u32 = self.bytes[i + 2] as u32 + 0x100 * (self.bytes[i + 3] as u32);
                Some(lo + 0x1_0000 * hi)
            },
            None => None,
        }
    }

    /// The eight bytes from the guest address `addr` on as a little-endian
    /// number, or `None` if not all lie in the window.
    pub fn load_u64(&self, addr: u64) -> (r: Option<u64>)
        requires
            self.wf(),
        ensures
            r.is_some() == self@.maps(addr, 8),
            r matches Some(v) ==> self@.read(addr, 8) == Some(v as u64),
    {
        match self.locate(addr, 8) {
            Some(i) => {
                let b0: u64 = self.bytes[i] as u64 + 0x100 * (self.bytes[i + 1] as u64);
                let b1: u64 = self.bytes[i + 2] as u64 + 0x100 * (self.bytes[i + 3] as u64);
                let b2: u64 = self.bytes[i + 4] as u64 + 0x100 * (self.bytes[i + 5] as u64);
                let b3: u64 = self.bytes[i + 6] as u64 + 0x100 * (self.bytes[i + 7] as u64);
                let lo: u64 = b0 + 0x1_0000 * b1;
                let hi: u64 = b2 + 0x1_0000 * b3;
                Some(lo + 0x1_0000_0000 * hi)
            },
            None => None,
        }
    }

    /// Stores `v` at the guest address `addr`. Outside the window it stores
    /// nothing and returns `false`.
    pub fn store_u8(&mut self, addr: u64, v: u8) -> (ok: bool)
        requires
            old(self).wf(),
        ensures
            ok == old(self)@.maps(addr, 1),
            final(self).wf(),
            final(self)@ == (if ok {
                window_t { bytes: put8(old(self).bytes@, old(self)@.offset_of(addr), v), ..old(self)@ }
            } else {
                old(self)@
            }),
    {
        match self.locate(addr, 1) {
            Some(i) => {
                self.bytes[i] = v;
                true
            },
            None => false,
        }
    }

    /// Stores the two bytes of `v`, the low byte first, from the guest
    /// address `addr` on. If not both lie in the window it stores nothing
    /// and returns `false`.
    pub fn store_u16(&mut self, addr: u64, v: u16) -> (ok: bool)
        requires
            old(self).wf(),
        ensures
            ok == old(self)@.maps(addr, 2),
            final(self).wf(),
            final(self)@ == (if ok {
                window_t { bytes: put16(old(self).bytes@, old(self)@.offset_of(addr), v), ..old(self)@ }
            } else {
                old(self)@
            }),
    {
        match self.locate(addr, 2) {
            Some(i) => {
                self.bytes[i] = (v % 0x100) as u8;
                self.bytes[i + 1] = (v / 0x100) as u8;
                true
            },
            None => false,
        }
    }

    /// Stores the four bytes of `v`, the low byte first, from the guest
    /// address `addr` on. If not all lie in the window it stores nothing
    /// and returns `false`.
    pub fn store_u32(&mut self, addr: u64, v: u32) -> (ok: bool)
        requires
            old(self).wf(),
        ensures
            ok == old(self)@.maps(addr, 4),
            final(self).wf(),
            final(self)@ == (if ok {
                window_t { bytes: put32(old(self).bytes@, old(self)@.offset_of(addr), v), ..old(self)@ }
            } else {
                old(self)@
            }),
    {
        match self.locate(addr, 4) {
            Some(i) => {
                let lo: u16 = (v % 0x1_0000) as u16;
                let hi: u16 = (v / 0x1_0000) as u16;
                self.bytes[i] = (lo % 0x100) as u8;
                self.bytes[i + 1] = (lo / 0x100) as u8;
                self.bytes[i + 2] = (hi % 0x100) as u8;
                self.bytes[i + 3] = (hi / 0x100) as u8;
                true
            },
            None => false,
        }
    }

    /// Stores the eight bytes of `v`, the low byte first, from the guest
    /// address `addr` on. If not all lie in the window it stores nothing
    /// and returns `false`.
    pub fn store_u64(&mut self, addr: u64, v: u64) -> (ok: bool)
        requires
            old(self).wf(),
        ensures
            ok == old(self)@.maps(addr, 8),
            final(self).wf(),
            final(self)@ == (if ok {
                window_t { bytes: put64(old(self).bytes@, old(self)@.offset_of(addr), v), ..old(self)@ }
            } else {
                old(self)@
            }),
    {
        match self.locate(addr, 8) {
            Some(i) => {
                let lo: u32 = (v % 0x1_0000_0000) as u32;
                let hi: u32 = (v / 0x1_0000_0000) as u32;
                let w0: u16 = (lo % 0x1_0000) as u16;
                let w1: u16 = (lo / 0x1_0000) as u16;
                let w2: u16 = (hi % 0x1_0000) as u16;
                let w3: u16 = (hi / 0x1_0000) as u16;
                self.bytes[i] = (w0 % 0x100) as u8;
                self.bytes[i + 1] = (w0 / 0x100) as u8;
                self.bytes[i + 2] = (w1 % 0x100) as u8;
                self.bytes[i + 3] = (w1 / 0x100) as u8;
                self.bytes[i + 4] = (w2 % 0x100) as u8;
                self.bytes[i + 5] = (w2 / 0x100) as u8;
                self.bytes[i + 6] = (w3 % 0x100) as u8;
                self.bytes[i + 7] = (w3 / 0x100) as u8;
                true
            },
            None => false,
        }
    }

    /// The little-endian number in the `width` bytes from the guest address
    /// `addr` on, or `None` if not all of them lie in the window.
    pub fn load(&self, addr: u64, width: usize) -> (r: Option<u64>)
        requires
            self.wf(),
            is_width(width as int),
        ensures
            r == self@.read(addr, width as int),
    {
        if width == 1 {
            match self.load_u8(addr) {
                Some(v) => Some(v as u64),
                None => None,
            }
        } else if width == 2 {
            match self.load_u16(addr) {
                Some(v) => Some(v as u64),
                None => None,
            }
        } else if width == 4 {
            match self.load_u32(addr) {
                Some(v) => Some(v as u64),
                None => None,
            }
        } else {
            self.load_u64(addr)
        }
    }

    /// Stores the low `width` bytes of `v`, the low byte first, from the
    /// guest address `addr` on. If not all of them lie in the window it
    /// stores nothing and returns `false`.
    pub fn store(&mut self, addr: u64, width: usize, v: u64) -> (ok: bool)
        requires
            old(self).wf(),
            is_width(width as int),
        ensures
            final(self).wf(),
            match old(self)@.write(addr, width as int, v) {
                Some(w) => ok && final(self)@ == w,
                None => !ok && final(self)@ == old(self)@,
            },
    {
        if width == 1 {
            self.store_u8(addr, (v % 0x100) as u8)
        } else if width == 2 {
            self.store_u16(addr, (v % 0x1_0000) as u16)
        } else if width == 4 {
            self.store_u32(addr, (v % 0x1_0000_0000) as u32)
        } else {
            self.store_u64(addr, v)
        }
    }

    /// The host address behind the window's last byte.
    pub fn host_end(&self) -> (r: u64)
        requires
            self.wf(),
        ensures
            r == self@.host_end(),
            self.bytes@.len() <= usize::MAX,
    {
        self.host_base + self.bytes.len() as u64
    }

    /// Lengthens the window with zero bytes until it ends at the host
    /// address `end`. A window that ends there or above stays as it is.
    /// Returns `false`, and changes nothing, where the longer window would
    /// hold more bytes than a vector can.
    pub fn extend_to(&mut self, end: u64) -> (ok: bool)
        requires
            old(self).wf(),
        ensures
            final(self).wf(),
            ok == old(self)@.can_reach(end as int),
            final(self)@ == (if ok && end > old(self)@.host_end() {
                window_t {
                    bytes: old(self).bytes@ + zeros((end - old(self)@.host_end()) as nat),
                    ..old(self)@
                }
            } else {
                old(self)@
            }),
    {
        if end <= self.host_end() {
            return true;
        }
        let len: u64 = end - self.host_base;
        if len > isize::MAX as u64 {
            return false;
        }
        let ghost before = self.bytes@;
        self.bytes.resize(len as usize, 0u8);
        assert(self.bytes@ =~= before + zeros((len - before.len()) as nat));
        true
    }

    /// Copies `data` into the window from the guest address `addr` on.
    /// Returns `false`, and changes nothing, if not all of it lies in the
    /// window.
    pub fn write_bytes(&mut self, addr: u64, data: &[u8]) -> (ok: bool)
        requires
            old(self).wf(),
        ensures
            final(self).wf(),
            ok == (old(self)@.host_base <= addr + GUEST_MEMORY_OFFSET && addr
                + GUEST_MEMORY_OFFSET + data@.len() <= old(self)@.host_end()),
            final(self)@ == (if ok {
                window_t {
                    bytes: place(old(self).bytes@, old(self)@.offset_of(addr), data@),
                    ..old(self)@
                }
            } else {
                old(self)@
            }),
    {
        let n: usize = data.len();
        let at: usize = match self.locate(addr, 0) {
            Some(at) => at,
            None => {
                return false;
            },
        };
        if self.bytes.len() - at < n {
            return false;
        }
        let ghost before = self.bytes@;
        let mut k: usize = 0;
        while k < n
            invariant
                k <= n,
                n == data@.len(),
                at + n <= self.bytes@.len() <= usize::MAX,
                self.host_base == old(self).host_base,
                before == old(self).bytes@,
                self.bytes@ == place(before, at as int, data@.subrange(0, k as int)),
            decreases n - k,
        {
            self.bytes[at + k] = data[k];
            k = k + 1;
            assert(self.bytes@ =~= place(before, at as int, data@.subrange(0, k as int)));
        }
        assert(data@.subrange(0, n as int) =~= data@);
        true
    }

    /// Clears the `n` bytes from the guest address `addr` on. Returns
    /// `false`, and changes nothing, if not all of them lie in the window.
    pub fn clear_bytes(&mut self, addr: u64, n: u64) -> (ok: bool)
        requires
            old(self).wf(),
        ensures
            final(self).wf(),
            ok == (old(self)@.host_base <= addr + GUEST_MEMORY_OFFSET && addr
                + GUEST_MEMORY_OFFSET + n <= old(self)@.host_end()),
            final(self)@ == (if ok {
                window_t {
                    bytes: place(old(self).bytes@, old(self)@.offset_of(addr), zeros(n as nat)),
                    ..old(self)@
                }
            } else {
                old(self)@
            }),
    {
        let at: usize = match self.locate(addr, 0) {
            Some(at) => at,
            None => {
                return false;
            },
        };
        if ((self.bytes.len() - at) as u64) < n {
            return false;
        }
        let n: usize = n as usize;
        let ghost before = self.bytes@;
        let mut k: usize = 0;
        while k < n
            invariant
                k <= n,
                at + n <= self.bytes@.len() <= usize::MAX,
                self.host_base == old(self).host_base,
                before == old(self).bytes@,
                self.bytes@ == place(before, at as int, zeros(k as nat)),
            decreases n - k,
        {
            self.bytes[at + k] = 0;
            k = k + 1;
            assert(self.bytes@ =~= place(before, at as int, zeros(k as nat)));
        }
        true
    }

    /// Copies the `n` bytes from the guest address `addr` on out of the
    /// window, or returns `None` if not all of them lie in it.
    pub fn read_bytes(&self, addr: u64, n: u64) -> (r: Option<Vec<u8>>)
        requires
            self.wf(),
        ensures
            r is Some == (self@.host_base <= addr + GUEST_MEMORY_OFFSET && addr
                + GUEST_MEMORY_OFFSET + n <= self@.host_end()),
            r matches Some(v) ==> v@ == self.bytes@.subrange(
                self@.offset_of(addr),
                self@.offset_of(addr) + n,
            ),
    {
        let at: usize = match self.locate(addr, 0) {
            Some(at) => at,
            None => {
                return None;
            },
        };
        if ((self.bytes.len() - at) as u64) < n {
            return None;
        }
        let n: usize = n as usize;
        let mut out: Vec<u8> = Vec::new();
        let mut k: usize = 0;
        while k < n
            invariant
                k <= n,
                at + n <= self.bytes@.len() <= usize::MAX,
                out@ == self.bytes@.subrange(at as int, at + k),
            decreases n - k,
        {
            out.push(self.bytes[at + k]);
            k = k + 1;
            assert(out@ =~= self.bytes@.subrange(at as int, at + k));
        }
        Some(out)
    }

    /// Copies the bytes from the guest address `addr` up to the first zero
    /// byte out of the window, without the zero byte. Returns `None` where
    /// `addr` does not lie in the window or no zero byte follows in it.
    pub fn read_cstr(&self, addr: u64) -> (r: Option<Vec<u8>>)
        requires
            self.wf(),
        ensures
            match r {
                Some(v) => {
                    let at = self@.offset_of(addr);
                    &&& self@.maps(addr, (v@.len() + 1) as int)
                    &&& v@ == self.bytes@.subrange(at, at + v@.len())
                    &&& self.bytes@[at + v@.len()] == 0
                    &&& forall|i: int| 0 <= i < v@.len() ==> v@[i] != 0
                },
                None => !self@.maps(addr, 0) || forall|i: int|
                    self@.offset_of(addr) <= i < self.bytes@.len() ==> self.bytes@[i] != 0,
            },
    {
        let at: usize = match self.locate(addr, 0) {
            Some(at) => at,
            None => {
                return None;
            },
        };
        let len: usize = self.bytes.len();
        let mut out: Vec<u8> = Vec::new();
        let mut k: usize = at;
        while k < len
            invariant
                at <= k <= len,
                len == self.bytes@.len(),
                self.wf(),
                self@.maps(addr, 0),
                at == self@.offset_of(addr),
                out@ == self.bytes@.subrange(at as int, k as int),
                forall|i: int| at <= i < k ==> self.bytes@[i] != 0,
            decreases len - k,
        {
            let b: u8 = self.bytes[k];
            if b == 0 {
                return Some(out);
            }
            out.push(b);
            k = k + 1;
            assert(out@ =~= self.bytes@.subrange(at as int, k as int));
        }
        None
    }
}

} // verus!
