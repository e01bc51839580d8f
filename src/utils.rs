//! Guest memory access and the marshalling of arguments and return values.
//!
//! Guest memory is a byte buffer owned elsewhere. A guest virtual address is
//! turned into an index of that buffer; nothing here allocates, resizes or
//! bounds-checks it beyond what the contracts require of callers.

use vstd::prelude::*;
use crate::types::{Fpr, RecompContext, low_lane, high_lane, join_lanes, lemma_join_of_lanes};

verus! {

/// Virtual address of the first byte of guest memory: the start of the
/// primary mapped segment, sign-extended to 64 bits.
pub const KSEG0_BASE: u64 = 0xFFFF_FFFF_8000_0000;

/// Mask applied to the low two bits of a byte's offset to undo the byte
/// order of 32-bit words.
pub const BYTE_SWAP_MASK: u64 = 3;

/// Offset into guest memory of a virtual address (wrapping subtraction of
/// the segment base).
pub open spec fn translate(addr: u64) -> u64 {
    (addr - KSEG0_BASE) as u64
}

/// Offset into guest memory of the byte at `addr + offset`, with the byte
/// order within each 4-byte word remapped.
pub open spec fn byte_offset(addr: u64, offset: u64) -> u64 {
    ((((addr + offset) as u64) ^ BYTE_SWAP_MASK) - KSEG0_BASE) as u64
}

/// Whether the byte at `addr + offset` lies inside `mem`.
pub open spec fn readable(mem: Seq<u8>, addr: u64, offset: int) -> bool {
    byte_offset(addr, offset as u64) < mem.len()
}

/// The guest byte at `addr + offset`.
pub open spec fn guest_byte(mem: Seq<u8>, addr: u64, offset: int) -> u8 {
    mem[byte_offset(addr, offset as u64) as int]
}

/// Whether `mem` holds at `addr` a string of `n` non-zero bytes followed by
/// a zero byte, each of them inside `mem`, with `n` fitting in a `usize`.
pub open spec fn is_c_string(mem: Seq<u8>, addr: u64, n: nat) -> bool {
    &&& n < usize::MAX
    &&& forall|k: int| 0 <= k <= n ==> #[trigger] readable(mem, addr, k)
    &&& forall|k: int| 0 <= k < n ==> #[trigger] guest_byte(mem, addr, k) != 0
    &&& guest_byte(mem, addr, n as int) == 0
}

/// The first `n` guest bytes at `addr`, each as one character.
pub open spec fn c_string_chars(mem: Seq<u8>, addr: u64, n: nat) -> Seq<char> {
    Seq::new(n, |k: int| guest_byte(mem, addr, k) as char)
}

/// Value of an argument slot, `index` counting from `a0`.
pub open spec fn arg_slot(ctx: &RecompContext, index: int) -> u64 {
    ctx.gpr[4 + index]
}

/// A value returned to translated code, tagged with its kind. The ABI
/// returns only these kinds: 32-bit-or-narrower integers, booleans, and
/// single-precision floats.
#[derive(Clone, Copy, PartialEq, Eq, Structural, Debug)]
pub enum ReturnValue {
    /// A single-precision float, given by its bit pattern.
    F32(u32),
    I32(i32),
    U32(u32),
    I16(i16),
    U16(u16),
    I8(i8),
    U8(u8),
    Bool(bool),
}

/// The 32-bit signed word that an integer or boolean return value becomes:
/// narrower kinds widen by their own signedness, `u32` is reinterpreted, and
/// a boolean is 0 or 1. A float is never returned through an integer
/// register; its arm only gives the function a value there.
pub open spec fn return_word(val: ReturnValue) -> i32 {
    match val {
        ReturnValue::F32(bits) => reinterpret_u32(bits),
        ReturnValue::I32(v) => v,
        ReturnValue::U32(v) => reinterpret_u32(v),
        ReturnValue::I16(v) => v as i32,
        ReturnValue::U16(v) => v as i32,
        ReturnValue::I8(v) => v as i32,
        ReturnValue::U8(v) => v as i32,
        ReturnValue::Bool(b) => if b { 1 } else { 0 },
    }
}

/// The signed word with the same 32 bits as `v`.
pub open spec fn reinterpret_u32(v: u32) -> i32 {
    if v < 0x8000_0000 {
        v as i32
    } else {
        (v - 0x1_0000_0000) as i32
    }
}

/// A 32-bit signed word sign-extended to a 64-bit register.
pub open spec fn sign_extend(w: i32) -> u64 {
    if w >= 0 {
        w as u64
    } else {
        (w + 0x1_0000_0000_0000_0000) as u64
    }
}

/// The exec cast chain that sign-extends a word computes `sign_extend`.
proof fn lemma_sign_extend_cast(w: i32)
    ensures
        (w as i64) as u64 == sign_extend(w),
{
    assert(w < 0 ==> (w as i64) as u64 == (w + 0x1_0000_0000_0000_0000) as u64) by (bit_vector);
}

/// The exec cast from `u32` to `i32` computes `reinterpret_u32`.
proof fn lemma_reinterpret_cast(v: u32)
    ensures
        v as i32 == reinterpret_u32(v),
{
    assert(v >= 0x8000_0000 ==> v as i32 == (v - 0x1_0000_0000) as i32) by (bit_vector);
}

/// Relies on String::push: appends one character at the end.
#[verifier::external_body]
fn push_char(s: &mut String, c: char)
    ensures
        final(s)@ == old(s)@.push(c),
{
    s.push(c)
}

/// Reads one guest byte at `addr + offset`, correcting for the byte order of
/// guest words, and returns it as a signed byte.
pub fn mem_b(rdram: &[u8], addr: u64, offset: usize) -> (r: i8)
    requires
        readable(rdram@, addr, offset as int),
    ensures
        r == guest_byte(rdram@, addr, offset as int) as i8,
{
    let byte_addr = addr.wrapping_add(offset as u64);
    let rdram_offset = (byte_addr ^ BYTE_SWAP_MASK).wrapping_sub(KSEG0_BASE);
    proof {
        let a = addr;
        let o = offset as u64;
        assert(byte_addr == (a + o) as u64) by (bit_vector)
            requires
                byte_addr == vstd::wrapping::u64_specs::wrapping_add(a, o),
        ;
        let x = byte_addr ^ BYTE_SWAP_MASK;
        assert(rdram_offset == (x - KSEG0_BASE) as u64) by (bit_vector)
            requires
                rdram_offset == vstd::wrapping::u64_specs::wrapping_sub(x, KSEG0_BASE),
        ;
    }
    rdram[rdram_offset as usize] as i8
}

/// Position within guest memory of the byte at offset `t` once the byte
/// order of its 4-byte word is reversed: byte 0 of a word is stored at
/// position 3, byte 1 at 2, byte 2 at 1 and byte 3 at 0.
pub open spec fn swapped_position(t: u64) -> u64 {
    (t - t % 4 + (3 - t % 4)) as u64
}

/// Where the guest byte at `addr + offset` is stored: the translated
/// address advanced by `offset`, then swapped within its word.
pub open spec fn host_position(addr: u64, offset: int) -> u64 {
    swapped_position((translate(addr) + offset) as u64)
}

/// Whether `mem` holds the bytes `s` followed by a zero byte at guest
/// address `addr`, stored with the byte order of guest words.
pub open spec fn stores_c_string(mem: Seq<u8>, addr: u64, s: Seq<u8>) -> bool {
    &&& forall|k: int| 0 <= k <= s.len() ==> #[trigger] host_position(addr, k) < mem.len()
    &&& forall|k: int| 0 <= k < s.len() ==> mem[#[trigger] host_position(addr, k) as int] == s[k]
    &&& mem[host_position(addr, s.len() as int) as int] == 0
}

/// The byte read at `addr + offset` is the one stored at its swapped host
/// position.
pub proof fn lemma_byte_offset_is_host_position(addr: u64, offset: u64)
    ensures
        byte_offset(addr, offset) == host_position(addr, offset as int),
{
    let t = translate(addr);
    assert(t == (addr - KSEG0_BASE) as u64);
    assert(((((t + offset) as u64) - ((t + offset) as u64) % 4 + (3 - ((t + offset) as u64) % 4))
        as u64) == (((((addr + offset) as u64) ^ BYTE_SWAP_MASK) - KSEG0_BASE) as u64))
        by (bit_vector)
        requires
            t == (addr - KSEG0_BASE) as u64,
    ;
}

/// Byte-order remap of an aligned word: when the guest bytes `word[0..4]` at
/// a 4-byte-aligned address are stored at host positions 3, 2, 1, 0 from
/// the translated address, reading guest byte `k` gives `word[k]`.
pub proof fn lemma_byte_order_remap(mem: Seq<u8>, addr: u64, word: Seq<u8>)
    requires
        addr % 4 == 0,
        word.len() == 4,
        translate(addr) + 4 <= mem.len(),
        forall|k: int| 0 <= k < 4 ==> mem[translate(addr) + 3 - k] == #[trigger] word[k],
    ensures
        forall|k: int|
            0 <= k < 4 ==> #[trigger] readable(mem, addr, k) && guest_byte(mem, addr, k)
                == word[k],
{
    assert forall|k: int| 0 <= k < 4 implies #[trigger] readable(mem, addr, k) && guest_byte(
        mem,
        addr,
        k,
    ) == word[k] by {
        let o = k as u64;
        lemma_byte_offset_is_host_position(addr, o);
        let t = translate(addr);
        assert(t == (addr - KSEG0_BASE) as u64);
        assert(addr % 4 == 0 && o < 4 ==> swapped_position((t + o) as u64) == t + 3 - o)
            by (bit_vector)
            requires
                t == (addr - KSEG0_BASE) as u64,
        ;
        assert(byte_offset(addr, o) == t + 3 - k);
        assert(mem[t + 3 - k] == word[k]);
    }
}

/// Round trip: a string of non-zero bytes stored zero-terminated at `addr`
/// with the byte order of guest words is the one zero-terminated string
/// found there, and its characters are those bytes.
pub proof fn lemma_c_string_round_trip(mem: Seq<u8>, addr: u64, s: Seq<u8>)
    requires
        s.len() < usize::MAX,
        forall|k: int| 0 <= k < s.len() ==> #[trigger] s[k] != 0,
        stores_c_string(mem, addr, s),
    ensures
        is_c_string(mem, addr, s.len()),
        c_string_chars(mem, addr, s.len()) == s.map_values(|b: u8| b as char),
        forall|n: nat| #[trigger] is_c_string(mem, addr, n) ==> n == s.len(),
{
    assert forall|k: int| 0 <= k <= s.len() implies #[trigger] readable(mem, addr, k)
        && guest_byte(mem, addr, k) == (if k < s.len() { s[k] } else { 0 }) by {
        lemma_byte_offset_is_host_position(addr, k as u64);
        assert(host_position(addr, k) < mem.len());
    }
    assert forall|k: int| 0 <= k < s.len() implies #[trigger] guest_byte(mem, addr, k) != 0 by {
        assert(readable(mem, addr, k));
    }
    assert(readable(mem, addr, s.len() as int));
    assert(c_string_chars(mem, addr, s.len()) =~= s.map_values(|b: u8| b as char)) by {
        assert forall|k: int| 0 <= k < s.len() implies guest_byte(mem, addr, k) == s[k] by {
            assert(readable(mem, addr, k));
        }
    }
    assert forall|n: nat| #[trigger] is_c_string(mem, addr, n) implies n == s.len() by {
        if n < s.len() {
            assert(readable(mem, addr, n as int));
        } else if n > s.len() {
            assert(guest_byte(mem, addr, s.len() as int) != 0);
        }
    }
}

impl RecompContext {
    /// Offset into guest memory of the virtual address `addr`.
    pub fn to_ptr(&self, addr: u64) -> (r: u64)
        ensures
            r == translate(addr),
    {
        let r = addr.wrapping_sub(KSEG0_BASE);
        proof {
            assert(r == (addr - KSEG0_BASE) as u64) by (bit_vector)
                requires
                    r == vstd::wrapping::u64_specs::wrapping_sub(addr, KSEG0_BASE),
            ;
        }
        r
    }

    /// Low 32 bits of argument slot `index` (`a0` to `a3`).
    pub fn get_arg_u32(&self, index: usize) -> (r: u32)
        requires
            index < 4,
        ensures
            r == arg_slot(self, index as int) as u32,
    {
        let reg = match index {
            0 => self.a0(),
            1 => self.a1(),
            2 => self.a2(),
            _ => self.a3(),
        };
        reg as u32
    }

    /// Argument slot `index` (`a0` to `a3`).
    pub fn get_arg_u64(&self, index: usize) -> (r: u64)
        requires
            index < 4,
        ensures
            r == arg_slot(self, index as int),
    {
        match index {
            0 => self.a0(),
            1 => self.a1(),
            2 => self.a2(),
            _ => self.a3(),
        }
    }

    /// Bit pattern of the single-precision first argument: the low lane of
    /// `$f12`, the floating register that carries it. Only the first argument
    /// may be floating.
    pub fn get_arg_f32(&self, index: usize) -> (r: u32)
        requires
            index == 0,
        ensures
            r == low_lane(self.fpr[12].bits),
    {
        self.fpr[12].low()
    }

    /// Offset into guest memory of the address held in argument slot `index`.
    pub fn get_arg_ptr(&self, index: usize) -> (r: u64)
        requires
            index < 4,
        ensures
            r == translate(arg_slot(self, index as int)),
    {
        let addr = self.get_arg_u64(index);
        self.to_ptr(addr)
    }

    /// The zero-terminated guest string whose address is in argument slot
    /// `index`, one character per byte.
    pub fn get_arg_string(&self, rdram: &[u8], index: usize) -> (r: String)
        requires
            index < 4,
            exists|n: nat| is_c_string(rdram@, arg_slot(self, index as int), n),
        ensures
            is_c_string(rdram@, arg_slot(self, index as int), r@.len()),
            r@ == c_string_chars(rdram@, arg_slot(self, index as int), r@.len()),
    {
        let str_ptr_addr = self.get_arg_u64(index);
        let ghost mem = rdram@;
        let ghost n: nat = choose|n: nat| is_c_string(mem, str_ptr_addr, n);

        let mut len: usize = 0;
        while mem_b(rdram, str_ptr_addr, len) != 0
            invariant
                is_c_string(mem, str_ptr_addr, n),
                len <= n,
                mem == rdram@,
            decreases n - len,
        {
            proof {
                let b = guest_byte(mem, str_ptr_addr, len as int);
                assert(b as i8 != 0 ==> b != 0) by (bit_vector);
            }
            len = len + 1;
        }
        proof {
            let b = guest_byte(mem, str_ptr_addr, len as int);
            assert(b as i8 == 0 ==> b == 0) by (bit_vector);
        }
        assert(len == n);

        let mut result = String::new();
        let mut i: usize = 0;
        while i < len
            invariant
                is_c_string(mem, str_ptr_addr, n),
                len == n,
                i <= len,
                mem == rdram@,
                result@ == c_string_chars(mem, str_ptr_addr, i as nat),
            decreases len - i,
        {
            let byte = mem_b(rdram, str_ptr_addr, i);
            proof {
                let b = guest_byte(mem, str_ptr_addr, i as int);
                assert((b as i8) as u8 == b) by (bit_vector);
            }
            push_char(&mut result, byte as u8 as char);
            assert(result@ =~= c_string_chars(mem, str_ptr_addr, (i + 1) as nat));
            i = i + 1;
        }
        result
    }

    /// Stores a return value: a float into the low lane of `$f0`, keeping
    /// its high lane; any other kind, as a sign-extended 32-bit word, into
    /// `v0`. Every other register is left as it was.
    pub fn set_return(&mut self, val: ReturnValue)
        ensures
            final(self).hi == old(self).hi,
            final(self).lo == old(self).lo,
            final(self).f_odd == old(self).f_odd,
            final(self).status_reg == old(self).status_reg,
            final(self).mips3_float_mode == old(self).mips3_float_mode,
            match val {
                ReturnValue::F32(bits) => {
                    &&& low_lane(final(self).fpr[0].bits) == bits
                    &&& high_lane(final(self).fpr[0].bits) == high_lane(old(self).fpr[0].bits)
                    &&& final(self).gpr@ == old(self).gpr@
                    &&& final(self).fpr@ == old(self).fpr@.update(
                        0,
                        Fpr { bits: join_lanes(bits, high_lane(old(self).fpr[0].bits)) },
                    )
                },
                _ => {
                    &&& final(self).gpr@ == old(self).gpr@.update(2, sign_extend(return_word(val)))
                    &&& final(self).fpr@ == old(self).fpr@
                },
            },
    {
        match val {
            ReturnValue::F32(bits) => {
                let mut f0 = self.fpr[0];
                f0.set_low(bits);
                proof {
                    lemma_join_of_lanes(f0.bits);
                }
                self.fpr[0] = f0;
            },
            _ => {
                let word: i32 = match val {
                    ReturnValue::U32(v) => {
                        proof {
                            lemma_reinterpret_cast(v);
                        }
                        v as i32
                    },
                    ReturnValue::I16(v) => v as i32,
                    ReturnValue::U16(v) => v as i32,
                    ReturnValue::I8(v) => v as i32,
                    ReturnValue::U8(v) => v as i32,
                    ReturnValue::Bool(b) => if b { 1 } else { 0 },
                    ReturnValue::I32(v) => v,
                    // the float kind took the branch above
                    ReturnValue::F32(bits) => bits as i32,
                };
                proof {
                    lemma_sign_extend_cast(word);
                }
                self.gpr[2] = word as i64 as u64;
            },
        }
    }
}

} // verus!
