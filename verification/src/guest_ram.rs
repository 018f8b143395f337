//! A model of the guest-physical memory the device backend reads.
//!
//! The queue structures (descriptor table, available ring) live in memory the
//! guest owns and can fill with arbitrary values. The device sees that memory
//! as one contiguous region of bytes starting at a guest-physical base
//! address. Every read is bounds-checked: an address outside the region is a
//! normal, recoverable failure (`None`), never a fault.
//!
//! Multi-byte loads decode little-endian, as the wire format mandates.

use vstd::prelude::*;

verus! {

/// One contiguous region of guest-physical memory, as the device sees it.
///
/// `base` is the guest-physical address of `bytes[0]`.
pub struct GuestRam {
    pub base: u64,
    pub bytes: Vec<u8>,
}

impl GuestRam {
    /// The addresses `addr ..< addr + len` all fall inside this region and
    /// inside the 64-bit guest-physical address space.
    pub open spec fn spec_readable(self, addr: int, len: int) -> bool {
        &&& self.base <= addr
        &&& addr + len <= self.base + self.bytes@.len()
        &&& addr + len <= u64::MAX + 1
    }

    /// The byte stored at guest-physical address `addr`.
    pub open spec fn spec_u8_at(self, addr: int) -> u8 {
        self.bytes@[addr - self.base]
    }

    /// The little-endian 16-bit value stored at `addr`.
    pub open spec fn spec_u16_at(self, addr: int) -> u16 {
        (self.spec_u8_at(addr) + 0x100 * self.spec_u8_at(addr + 1)) as u16
    }

    /// The little-endian 32-bit value stored at `addr`.
    pub open spec fn spec_u32_at(self, addr: int) -> u32 {
        (self.spec_u16_at(addr) + 0x1_0000 * self.spec_u16_at(addr + 2)) as u32
    }

    /// The little-endian 64-bit value stored at `addr`.
    pub open spec fn spec_u64_at(self, addr: int) -> u64 {
        (self.spec_u32_at(addr) + 0x1_0000_0000 * self.spec_u32_at(addr + 4)) as u64
    }

    /// Decides whether `len` bytes starting at `addr` can be read.
    pub fn check_range(&self, addr: u64, len: u64) -> (r: bool)
        ensures
            r == self.spec_readable(addr as int, len as int),
    {
        if addr < self.base {
            return false;
        }
        if len > 0 && addr > u64::MAX - (len - 1) {
            return false;
        }
        let off: u64 = addr - self.base;
        let blen: u64 = self.bytes.len() as u64;
        if len > blen {
            return false;
        }
        off <= blen - len
    }

    /// Reads the byte at `addr`, or `None` if it lies outside the region.
    pub fn load_u8(&self, addr: u64) -> (r: Option<u8>)
        ensures
            r == (if self.spec_readable(addr as int, 1) {
                Some(self.spec_u8_at(addr as int))
            } else {
                None::<u8>
            }),
    {
        if !self.check_range(addr, 1) {
            return None;
        }
        let off: u64 = addr - self.base;
        let n: usize = self.bytes.len();
        proof {
            assert(off + 1 <= n);
        }
        let i: usize = off as usize;
        Some(self.bytes[i])
    }

    /// Reads the little-endian 16-bit value at `addr`, bounds-checked.
    pub fn load_u16(&self, addr: u64) -> (r: Option<u16>)
        ensures
            r == (if self.spec_readable(addr as int, 2) {
                Some(self.spec_u16_at(addr as int))
            } else {
                None::<u16>
            }),
    {
        if !self.check_range(addr, 2) {
            return None;
        }
        let off: u64 = addr - self.base;
        let n: usize = self.bytes.len();
        proof {
            assert(off + 2 <= n);
        }
        let i: usize = off as usize;
        let b0 = self.bytes[i];
        let b1 = self.bytes[i + 1];
        Some((b0 as u16) + (b1 as u16) * 0x100)
    }

    /// Reads the little-endian 32-bit value at `addr`, bounds-checked.
    pub fn load_u32(&self, addr: u64) -> (r: Option<u32>)
        ensures
            r == (if self.spec_readable(addr as int, 4) {
                Some(self.spec_u32_at(addr as int))
            } else {
                None::<u32>
            }),
    {
        if !self.check_range(addr, 4) {
            return None;
        }
        let off: u64 = addr - self.base;
        let n: usize = self.bytes.len();
        proof {
            assert(off + 4 <= n);
        }
        let i: usize = off as usize;
        let b0 = self.bytes[i];
        let b1 = self.bytes[i + 1];
        let b2 = self.bytes[i + 2];
        let b3 = self.bytes[i + 3];
        Some((b0 as u32) + (b1 as u32) * 0x100 + (b2 as u32) * 0x1_0000 + (b3 as u32) * 0x100_0000)
    }

    /// Reads the little-endian 64-bit value at `addr`, bounds-checked.
    pub fn load_u64(&self, addr: u64) -> (r: Option<u64>)
        ensures
            r == (if self.spec_readable(addr as int, 8) {
                Some(self.spec_u64_at(addr as int))
            } else {
                None::<u64>
            }),
    {
        if !self.check_range(addr, 8) {
            return None;
        }
        let lo = match self.load_u32(addr) {
            Some(v) => v,
            None => {
                return None;
            },
        };
        let hi = match self.load_u32(addr + 4) {
            Some(v) => v,
            None => {
                return None;
            },
        };
        Some((lo as u64) + (hi as u64) * 0x1_0000_0000)
    }
}

} // verus!
