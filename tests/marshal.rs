use recomp_runtime::types::{Fpr, RecompContext};
use recomp_runtime::utils::{mem_b, ReturnValue, BYTE_SWAP_MASK, KSEG0_BASE};

/// Stores guest byte `b` at virtual address `addr`, with the byte order of
/// guest words reversed as the hardware layout has it.
fn store_guest_byte(mem: &mut [u8], addr: u64, b: u8) {
    let host = (addr.wrapping_sub(KSEG0_BASE) ^ BYTE_SWAP_MASK) as usize;
    mem[host] = b;
}

fn store_guest_bytes(mem: &mut [u8], addr: u64, bytes: &[u8]) {
    for (k, b) in bytes.iter().enumerate() {
        store_guest_byte(mem, addr + k as u64, *b);
    }
}

fn context_with_args(args: [u64; 4]) -> RecompContext {
    let mut ctx = RecompContext::new();
    ctx.gpr[4..8].copy_from_slice(&args);
    ctx
}

#[test]
fn arg_u64_reads_each_slot() {
    let vals = [0x0123_4567_89AB_CDEF, u64::MAX, 0, 0xFFFF_FFFF_8000_0000];
    let ctx = context_with_args(vals);
    for i in 0..4 {
        assert_eq!(ctx.get_arg_u64(i), vals[i]);
    }
}

#[test]
fn arg_u32_keeps_low_bits() {
    let vals = [0x0123_4567_89AB_CDEF, u64::MAX, 0x1_0000_0000, 0xFFFF_FFFF_8000_0001];
    let ctx = context_with_args(vals);
    assert_eq!(ctx.get_arg_u32(0), 0x89AB_CDEF);
    assert_eq!(ctx.get_arg_u32(1), 0xFFFF_FFFF);
    assert_eq!(ctx.get_arg_u32(2), 0);
    assert_eq!(ctx.get_arg_u32(3), 0x8000_0001);
}

#[test]
fn args_are_independent_of_other_registers() {
    let mut ctx = context_with_args([1, 2, 3, 4]);
    ctx.gpr[3] = 99;
    ctx.gpr[8] = 99;
    assert_eq!(ctx.get_arg_u64(0), 1);
    assert_eq!(ctx.get_arg_u64(3), 4);
}

#[test]
fn arg_f32_is_low_lane_of_f12() {
    let mut ctx = context_with_args([7, 7, 7, 7]);
    let bits = 2.5f32.to_bits();
    ctx.fpr[12] = Fpr::from_u64(0x4000_0000_0000_0000 | bits as u64);
    assert_eq!(ctx.get_arg_f32(0), bits);
    assert_eq!(f32::from_bits(ctx.get_arg_f32(0)), 2.5f32);
}

#[test]
fn to_ptr_subtracts_segment_base() {
    let ctx = RecompContext::new();
    assert_eq!(ctx.to_ptr(0xFFFF_FFFF_8000_0000), 0);
    assert_eq!(ctx.to_ptr(0xFFFF_FFFF_8012_3456), 0x12_3456);
    assert_eq!(ctx.to_ptr(0), 0x8000_0000);
}

#[test]
fn arg_ptr_translates_slot() {
    let ctx = context_with_args([0, 0, 0xFFFF_FFFF_8000_1000, 0]);
    assert_eq!(ctx.get_arg_ptr(2), 0x1000);
    assert_eq!(ctx.get_arg_ptr(0), 0x8000_0000);
}

#[test]
fn read_byte_undoes_word_byte_order() {
    let mut mem = vec![0u8; 0x40];
    // guest bytes A0..A3 of the word at 0x...10 sit at host 0x13, 0x12, 0x11, 0x10
    mem[0x13] = 0xA0;
    mem[0x12] = 0xA1;
    mem[0x11] = 0x52;
    mem[0x10] = 0x53;
    let a = 0xFFFF_FFFF_8000_0010;
    assert_eq!(mem_b(&mem, a, 0), 0xA0u8 as i8);
    assert_eq!(mem_b(&mem, a, 1), 0xA1u8 as i8);
    assert_eq!(mem_b(&mem, a, 2), 0x52);
    assert_eq!(mem_b(&mem, a, 3), 0x53);
    assert_eq!(mem_b(&mem, a + 1, 2), 0x53);
}

#[test]
fn read_byte_is_signed() {
    let mut mem = vec![0u8; 8];
    store_guest_byte(&mut mem, 0xFFFF_FFFF_8000_0002, 0xFF);
    assert_eq!(mem_b(&mem, 0xFFFF_FFFF_8000_0000, 2), -1);
}

#[test]
fn string_ok_from_a3() {
    let mut mem = vec![0u8; 0x2000];
    store_guest_bytes(&mut mem, 0xFFFF_FFFF_8000_1000, b"OK\0");
    let ctx = context_with_args([0, 0, 0, 0xFFFF_FFFF_8000_1000]);
    assert_eq!(ctx.get_arg_string(&mem, 3), "OK");
}

#[test]
fn string_round_trip_across_words() {
    let mut mem = vec![0xEEu8; 0x100];
    let text = "Hello, recompiled world!";
    let addr = 0xFFFF_FFFF_8000_0021;
    let mut bytes = text.as_bytes().to_vec();
    bytes.push(0);
    store_guest_bytes(&mut mem, addr, &bytes);
    let ctx = context_with_args([addr, 0, 0, 0]);
    assert_eq!(ctx.get_arg_string(&mem, 0), text);
}

#[test]
fn string_round_trip_every_alignment() {
    for start in 0..4u64 {
        let mut mem = vec![0x55u8; 0x40];
        let addr = 0xFFFF_FFFF_8000_0008 + start;
        store_guest_bytes(&mut mem, addr, b"abcdefg\0");
        let ctx = context_with_args([0, addr, 0, 0]);
        assert_eq!(ctx.get_arg_string(&mem, 1), "abcdefg");
    }
}

#[test]
fn empty_string() {
    let mut mem = vec![0x41u8; 0x10];
    store_guest_byte(&mut mem, 0xFFFF_FFFF_8000_0004, 0);
    let ctx = context_with_args([0, 0, 0xFFFF_FFFF_8000_0004, 0]);
    assert_eq!(ctx.get_arg_string(&mem, 2), "");
}

#[test]
fn string_bytes_become_single_chars() {
    let mut mem = vec![0u8; 0x10];
    store_guest_bytes(&mut mem, 0xFFFF_FFFF_8000_0000, &[0xC3, 0xA9, 0x7A, 0]);
    let ctx = context_with_args([0xFFFF_FFFF_8000_0000, 0, 0, 0]);
    let s = ctx.get_arg_string(&mem, 0);
    assert_eq!(s.chars().collect::<Vec<char>>(), vec!['\u{C3}', '\u{A9}', 'z']);
}

#[test]
fn return_bool_true_is_one() {
    let mut ctx = RecompContext::new();
    ctx.gpr[2] = u64::MAX;
    ctx.set_return(ReturnValue::Bool(true));
    assert_eq!(ctx.v0(), 1);
    ctx.set_return(ReturnValue::Bool(false));
    assert_eq!(ctx.v0(), 0);
}

#[test]
fn return_f32_sets_low_lane_only() {
    let mut ctx = RecompContext::new();
    ctx.fpr[0] = Fpr::from_u64(0x1234_5678_0000_0000);
    ctx.gpr[2] = 77;
    ctx.set_return(ReturnValue::F32(3.5f32.to_bits()));
    assert_eq!(ctx.fpr[0].low(), 3.5f32.to_bits());
    assert_eq!(ctx.fpr[0].low(), 0x4060_0000);
    assert_eq!(ctx.fpr[0].high(), 0x1234_5678);
    assert_eq!(ctx.v0(), 77);
}

#[test]
fn return_integers_sign_extend_as_words() {
    let cases = [
        (ReturnValue::I32(-1), u64::MAX),
        (ReturnValue::I32(0x7FFF_FFFF), 0x7FFF_FFFF),
        (ReturnValue::U32(0x8000_0000), 0xFFFF_FFFF_8000_0000),
        (ReturnValue::U32(5), 5),
        (ReturnValue::I16(-2), 0xFFFF_FFFF_FFFF_FFFE),
        (ReturnValue::U16(0xFFFF), 0xFFFF),
        (ReturnValue::I8(-128), 0xFFFF_FFFF_FFFF_FF80),
        (ReturnValue::U8(200), 200),
    ];
    for (val, expected) in cases {
        let mut ctx = RecompContext::new();
        ctx.fpr[0] = Fpr::from_u64(9);
        ctx.set_return(val);
        assert_eq!(ctx.v0(), expected);
        assert_eq!(ctx.fpr[0].to_u64(), 9);
    }
}

#[test]
fn return_leaves_other_registers() {
    let mut ctx = RecompContext::new();
    for i in 0..32 {
        ctx.gpr[i] = i as u64;
    }
    ctx.hi = 11;
    ctx.lo = 12;
    ctx.set_return(ReturnValue::I32(-5));
    assert_eq!(ctx.v0(), (-5i64) as u64);
    assert_eq!(ctx.v1(), 3);
    assert_eq!(ctx.zero(), 0);
    assert_eq!(ctx.hi, 11);
    assert_eq!(ctx.lo, 12);
}
