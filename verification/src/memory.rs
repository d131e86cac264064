use vstd::prelude::*;
use vstd::bytes::*;

verus! {

/// A snapshot of one contiguous readable range of a foreign address
/// space.  Byte `bytes[i]` is the byte that the foreign process holds at
/// address `base + i`.  The snapshot is a plain value: every operation of
/// the library that "reads memory" reads this value, so a read outside the
/// snapshot is reported instead of touching memory the library does not
/// own.
pub struct Memory {
    /// Lowest address the snapshot covers.
    pub base: usize,
    /// The bytes at `base`, `base + 1`, and so on.
    pub bytes: Vec<u8>,
}

impl Memory {
    /// The snapshot stays inside the address space: its last byte has an
    /// address no larger than `usize::MAX`.
    pub open spec fn wf(&self) -> bool {
        self.base + self.bytes@.len() <= usize::MAX + 1
    }

    /// The range of `n` bytes starting at address `a` lies inside the
    /// snapshot.
    pub open spec fn covers(&self, a: int, n: int) -> bool {
        &&& 0 <= n
        &&& self.base <= a
        &&& a + n <= self.base + self.bytes@.len()
    }

    /// The byte the snapshot holds at address `a`.
    pub open spec fn byte_at(&self, a: int) -> u8 {
        self.bytes@[a - self.base]
    }

    /// The `n` bytes the snapshot holds starting at address `a`.
    pub open spec fn bytes_at(&self, a: int, n: int) -> Seq<u8> {
        self.bytes@.subrange(a - self.base, a - self.base + n)
    }

    /// The little-endian 16-bit value at address `a`, if covered.
    pub open spec fn u16_at(&self, a: int) -> Option<u16> {
        if self.covers(a, 2) {
            Some(spec_u16_from_le_bytes(self.bytes_at(a, 2)))
        } else {
            None
        }
    }

    /// The little-endian 32-bit value at address `a`, if covered.  This is
    /// also the machine word of the introspected 32-bit image.
    pub open spec fn u32_at(&self, a: int) -> Option<u32> {
        if self.covers(a, 4) {
            Some(spec_u32_from_le_bytes(self.bytes_at(a, 4)))
        } else {
            None
        }
    }

    /// Read `n` bytes starting at address `a`, if the snapshot covers them.
    pub fn read_bytes(&self, a: usize, n: usize) -> (r: Option<Vec<u8>>)
        requires
            self.wf(),
        ensures
            r is Some <==> self.covers(a as int, n as int),
            r matches Some(v) ==> v@ == self.bytes_at(a as int, n as int),
    {
        if a < self.base {
            return None;
        }
        let off = a - self.base;
        if off > self.bytes.len() || n > self.bytes.len() - off {
            return None;
        }
        let mut v: Vec<u8> = Vec::new();
        let mut i: usize = 0;
        while i < n
            invariant
                self.wf(),
                self.covers(a as int, n as int),
                off == a - self.base,
                off + n <= self.bytes@.len(),
                i <= n,
                v@ == self.bytes@.subrange(off as int, off + i),
            decreases n - i,
        {
            v.push(self.bytes[off + i]);
            proof {
                assert(v@ =~= self.bytes@.subrange(off as int, off + i + 1));
            }
            i = i + 1;
        }
        proof {
            assert(v@ =~= self.bytes_at(a as int, n as int));
        }
        Some(v)
    }

    /// Read the little-endian 16-bit value at address `a`.
    pub fn read_u16(&self, a: usize) -> (r: Option<u16>)
        requires
            self.wf(),
        ensures
            r == self.u16_at(a as int),
    {
        match self.read_bytes(a, 2) {
            None => None,
            Some(v) => Some(u16_from_le_bytes(v.as_slice())),
        }
    }

    /// Read the little-endian 32-bit value (one machine word of the
    /// introspected image) at address `a`.
    pub fn read_u32(&self, a: usize) -> (r: Option<u32>)
        requires
            self.wf(),
        ensures
            r == self.u32_at(a as int),
    {
        match self.read_bytes(a, 4) {
            None => None,
            Some(v) => Some(u32_from_le_bytes(v.as_slice())),
        }
    }

    /// Whether the snapshot covers `n` bytes starting at address `a`.
    pub fn check_covers(&self, a: usize, n: usize) -> (b: bool)
        requires
            self.wf(),
        ensures
            b == self.covers(a as int, n as int),
    {
        if a < self.base {
            return false;
        }
        let off = a - self.base;
        off <= self.bytes.len() && n <= self.bytes.len() - off
    }
}

} // verus!
