//! The execution context: integer and floating registers, special registers,
//! and the named accessors of the MIPS register convention.

use vstd::prelude::*;

verus! {

/// Low 32 bits of a 64-bit cell.
pub open spec fn low_lane(bits: u64) -> u32 {
    bits as u32
}

/// High 32 bits of a 64-bit cell.
pub open spec fn high_lane(bits: u64) -> u32 {
    (bits >> 32u64) as u32
}

/// The 64-bit cell whose low lane is `lo` and whose high lane is `hi`.
pub open spec fn join_lanes(lo: u32, hi: u32) -> u64 {
    ((hi as u64) << 32u64) | (lo as u64)
}

/// A floating register viewed as two 32-bit unsigned integers.
#[derive(Clone, Copy, PartialEq, Eq, Structural, Debug)]
pub struct FprUint {
    /// Lower 32-bit lane.
    pub u32l: u32,
    /// Upper 32-bit lane.
    pub u32h: u32,
}

/// A floating register: one 8-byte cell with several interpretations.
///
/// The cell stores raw bits; the 64-bit integer view, the pair of 32-bit
/// lanes, and the floating views all read and write these same bits. Exactly
/// one interpretation is current at a time, namely the one last written; the
/// caller reads back with that same interpretation.
#[derive(Clone, Copy, PartialEq, Eq, Structural, Debug)]
pub struct Fpr {
    /// The raw 64-bit contents.
    pub bits: u64,
}

impl Fpr {
    /// A register holding the given raw bits.
    pub fn from_u64(bits: u64) -> (r: Fpr)
        ensures
            r.bits == bits,
    {
        Fpr { bits }
    }

    /// The raw 64-bit view.
    pub fn to_u64(&self) -> (r: u64)
        ensures
            r == self.bits,
    {
        self.bits
    }

    /// The pair-of-lanes view.
    pub fn uint_pair(&self) -> (r: FprUint)
        ensures
            r.u32l == low_lane(self.bits),
            r.u32h == high_lane(self.bits),
    {
        FprUint { u32l: self.bits as u32, u32h: (self.bits >> 32u64) as u32 }
    }

    /// A register written through the pair-of-lanes view.
    pub fn from_uint_pair(p: FprUint) -> (r: Fpr)
        ensures
            r.bits == join_lanes(p.u32l, p.u32h),
            low_lane(r.bits) == p.u32l,
            high_lane(r.bits) == p.u32h,
    {
        proof {
            lemma_lanes_of_join(p.u32l, p.u32h);
        }
        Fpr { bits: ((p.u32h as u64) << 32u64) | (p.u32l as u64) }
    }

    /// The low 32-bit lane.
    pub fn low(&self) -> (r: u32)
        ensures
            r == low_lane(self.bits),
    {
        self.bits as u32
    }

    /// The high 32-bit lane.
    pub fn high(&self) -> (r: u32)
        ensures
            r == high_lane(self.bits),
    {
        (self.bits >> 32u64) as u32
    }

    /// Overwrites the low lane, leaving the high lane as it was.
    pub fn set_low(&mut self, lo: u32)
        ensures
            low_lane(final(self).bits) == lo,
            high_lane(final(self).bits) == high_lane(old(self).bits),
    {
        let hi = self.high();
        proof {
            lemma_lanes_of_join(lo, hi);
        }
        self.bits = ((hi as u64) << 32u64) | (lo as u64);
    }

    /// Overwrites the high lane, leaving the low lane as it was.
    pub fn set_high(&mut self, hi: u32)
        ensures
            high_lane(final(self).bits) == hi,
            low_lane(final(self).bits) == low_lane(old(self).bits),
    {
        let lo = self.low();
        proof {
            lemma_lanes_of_join(lo, hi);
        }
        self.bits = ((hi as u64) << 32u64) | (lo as u64);
    }
}

/// Writing both lanes and reading them back gives the lanes written.
pub proof fn lemma_lanes_of_join(lo: u32, hi: u32)
    ensures
        low_lane(join_lanes(lo, hi)) == lo,
        high_lane(join_lanes(lo, hi)) == hi,
{
    assert((((hi as u64) << 32u64) | (lo as u64)) as u32 == lo) by (bit_vector);
    assert(((((hi as u64) << 32u64) | (lo as u64)) >> 32u64) as u32 == hi) by (bit_vector);
}

/// The lanes of a cell determine it: the 64-bit view and the pair-of-lanes
/// view alias the same bits.
pub proof fn lemma_join_of_lanes(bits: u64)
    ensures
        join_lanes(low_lane(bits), high_lane(bits)) == bits,
{
    assert(((((bits >> 32u64) as u32) as u64) << 32u64) | ((bits as u32) as u64) == bits)
        by (bit_vector);
}

/// Complete register state of one guest thread.
///
/// The fields follow the order that translated code relies on: the integer
/// slots in index order, the floating slots in index order, then `hi`, `lo`,
/// the legacy odd-register pointer, the status word and the mode flag.
/// Architectural names are accessors over fixed integer slots, never separate
/// storage.
pub struct RecompContext {
    /// General purpose registers, slot `i` being `$i`.
    pub gpr: [u64; 32],
    /// Floating point registers, slot `i` being `$fi`.
    pub fpr: [Fpr; 32],
    /// HI register of multiply and divide.
    pub hi: u64,
    /// LO register of multiply and divide.
    pub lo: u64,
    /// Placeholder for the legacy odd floating register pointer; no operation
    /// here reads or writes it.
    pub f_odd: usize,
    /// Processor status word.
    pub status_reg: u32,
    /// Floating-point addressing mode flag.
    pub mips3_float_mode: u8,
}

impl RecompContext {
    /// A context with every register cleared.
    pub fn new() -> (r: RecompContext)
        ensures
            forall|i: int| 0 <= i < 32 ==> #[trigger] r.gpr[i] == 0,
            forall|i: int| 0 <= i < 32 ==> (#[trigger] r.fpr[i]).bits == 0,
            r.hi == 0,
            r.lo == 0,
            r.f_odd == 0,
            r.status_reg == 0,
            r.mips3_float_mode == 0,
    {
        RecompContext {
            gpr: [0u64; 32],
            fpr: [Fpr { bits: 0 }; 32],
            hi: 0,
            lo: 0,
            f_odd: 0,
            status_reg: 0,
            mips3_float_mode: 0,
        }
    }

    /// Zero register (conventionally always zero): integer slot 0.
    pub fn zero(&self) -> (r: u64)
        ensures
            r == self.gpr[0],
    {
        self.gpr[0]
    }

    /// Assembler temporary: integer slot 1.
    pub fn at(&self) -> (r: u64)
        ensures
            r == self.gpr[1],
    {
        self.gpr[1]
    }

    /// First function return value: integer slot 2.
    pub fn v0(&self) -> (r: u64)
        ensures
            r == self.gpr[2],
    {
        self.gpr[2]
    }

    /// Second function return value: integer slot 3.
    pub fn v1(&self) -> (r: u64)
        ensures
            r == self.gpr[3],
    {
        self.gpr[3]
    }

    /// First argument: integer slot 4.
    pub fn a0(&self) -> (r: u64)
        ensures
            r == self.gpr[4],
    {
        self.gpr[4]
    }

    /// Second argument: integer slot 5.
    pub fn a1(&self) -> (r: u64)
        ensures
            r == self.gpr[5],
    {
        self.gpr[5]
    }

    /// Third argument: integer slot 6.
    pub fn a2(&self) -> (r: u64)
        ensures
            r == self.gpr[6],
    {
        self.gpr[6]
    }

    /// Fourth argument: integer slot 7.
    pub fn a3(&self) -> (r: u64)
        ensures
            r == self.gpr[7],
    {
        self.gpr[7]
    }

    /// Temporary register t0: integer slot 8.
    pub fn t0(&self) -> (r: u64)
        ensures
            r == self.gpr[8],
    {
        self.gpr[8]
    }

    /// Temporary register t1: integer slot 9.
    pub fn t1(&self) -> (r: u64)
        ensures
            r == self.gpr[9],
    {
        self.gpr[9]
    }

    /// Temporary register t2: integer slot 10.
    pub fn t2(&self) -> (r: u64)
        ensures
            r == self.gpr[10],
    {
        self.gpr[10]
    }

    /// Temporary register t3: integer slot 11.
    pub fn t3(&self) -> (r: u64)
        ensures
            r == self.gpr[11],
    {
        self.gpr[11]
    }

    /// Temporary register t4: integer slot 12.
    pub fn t4(&self) -> (r: u64)
        ensures
            r == self.gpr[12],
    {
        self.gpr[12]
    }

    /// Temporary register t5: integer slot 13.
    pub fn t5(&self) -> (r: u64)
        ensures
            r == self.gpr[13],
    {
        self.gpr[13]
    }

    /// Temporary register t6: integer slot 14.
    pub fn t6(&self) -> (r: u64)
        ensures
            r == self.gpr[14],
    {
        self.gpr[14]
    }

    /// Temporary register t7: integer slot 15.
    pub fn t7(&self) -> (r: u64)
        ensures
            r == self.gpr[15],
    {
        self.gpr[15]
    }

    /// Saved register s0: integer slot 16.
    pub fn s0(&self) -> (r: u64)
        ensures
            r == self.gpr[16],
    {
        self.gpr[16]
    }

    /// Saved register s1: integer slot 17.
    pub fn s1(&self) -> (r: u64)
        ensures
            r == self.gpr[17],
    {
        self.gpr[17]
    }

    /// Saved register s2: integer slot 18.
    pub fn s2(&self) -> (r: u64)
        ensures
            r == self.gpr[18],
    {
        self.gpr[18]
    }

    /// Saved register s3: integer slot 19.
    pub fn s3(&self) -> (r: u64)
        ensures
            r == self.gpr[19],
    {
        self.gpr[19]
    }

    /// Saved register s4: integer slot 20.
    pub fn s4(&self) -> (r: u64)
        ensures
            r == self.gpr[20],
    {
        self.gpr[20]
    }

    /// Saved register s5: integer slot 21.
    pub fn s5(&self) -> (r: u64)
        ensures
            r == self.gpr[21],
    {
        self.gpr[21]
    }

    /// Saved register s6: integer slot 22.
    pub fn s6(&self) -> (r: u64)
        ensures
            r == self.gpr[22],
    {
        self.gpr[22]
    }

    /// Saved register s7: integer slot 23.
    pub fn s7(&self) -> (r: u64)
        ensures
            r == self.gpr[23],
    {
        self.gpr[23]
    }

    /// Temporary register t8: integer slot 24.
    pub fn t8(&self) -> (r: u64)
        ensures
            r == self.gpr[24],
    {
        self.gpr[24]
    }

    /// Temporary register t9: integer slot 25.
    pub fn t9(&self) -> (r: u64)
        ensures
            r == self.gpr[25],
    {
        self.gpr[25]
    }

    /// Reserved for the kernel: integer slot 26.
    pub fn k0(&self) -> (r: u64)
        ensures
            r == self.gpr[26],
    {
        self.gpr[26]
    }

    /// Reserved for the kernel: integer slot 27.
    pub fn k1(&self) -> (r: u64)
        ensures
            r == self.gpr[27],
    {
        self.gpr[27]
    }

    /// Global pointer: integer slot 28.
    pub fn gp(&self) -> (r: u64)
        ensures
            r == self.gpr[28],
    {
        self.gpr[28]
    }

    /// Stack pointer: integer slot 29.
    pub fn sp(&self) -> (r: u64)
        ensures
            r == self.gpr[29],
    {
        self.gpr[29]
    }

    /// Frame pointer: integer slot 30.
    pub fn fp(&self) -> (r: u64)
        ensures
            r == self.gpr[30],
    {
        self.gpr[30]
    }

    /// Return address: integer slot 31.
    pub fn ra(&self) -> (r: u64)
        ensures
            r == self.gpr[31],
    {
        self.gpr[31]
    }
}

} // verus!
