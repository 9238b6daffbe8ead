//! The 64-bit user-data word of the ring, the user-copy buffer position and
//! rounding to a power of two.

use vstd::prelude::*;
use crate::uapi::{UBLKSRV_IO_BUF_OFFSET, UBLK_IO_BUF_BITS_MASK, UBLK_MAX_QUEUE_DEPTH};

verus! {

/// Bit that marks a completion as belonging to target I/O.
pub const USER_DATA_TARGET_BIT: u64 = 0x8000_0000_0000_0000;

/// The user-data word that holds `tag` in bits 0..16, `op` in bits 16..24,
/// `tgt_data` in bits 24..40 and the target mark in bit 63.
pub open spec fn spec_build_user_data(tag: u16, op: u32, tgt_data: u32, is_target_io: bool) -> u64 {
    (tag as u64) | ((op as u64) << 16) | ((tgt_data as u64) << 24) | (if is_target_io {
        USER_DATA_TARGET_BIT
    } else {
        0u64
    })
}

pub open spec fn spec_is_target_io(user_data: u64) -> bool {
    (user_data & USER_DATA_TARGET_BIT) != 0
}

pub open spec fn spec_user_data_to_tag(user_data: u64) -> u32 {
    (user_data & 0xffff) as u32
}

pub open spec fn spec_user_data_to_op(user_data: u64) -> u32 {
    ((user_data >> 16) & 0xff) as u32
}

pub open spec fn spec_user_data_to_tgt_data(user_data: u64) -> u32 {
    ((user_data >> 24) & 0xffff) as u32
}

/// Packs a tag, an 8-bit operation, 16 bits of target data and the target
/// mark into one user-data word.
pub fn build_user_data(tag: u16, op: u32, tgt_data: u32, is_target_io: bool) -> (r: u64)
    requires
        op < 0x100,
        tgt_data < 0x1_0000,
    ensures
        r == spec_build_user_data(tag, op, tgt_data, is_target_io),
{
    let low: u64 = (tag as u64) | ((op as u64) << 16) | ((tgt_data as u64) << 24);
    if is_target_io {
        low | USER_DATA_TARGET_BIT
    } else {
        proof {
            assert((low | 0u64) == low) by (bit_vector);
        }
        low
    }
}

/// Whether the word marks a completion of target I/O.
pub fn is_target_io(user_data: u64) -> (r: bool)
    ensures
        r == spec_is_target_io(user_data),
{
    (user_data & USER_DATA_TARGET_BIT) != 0
}

/// The tag held in the word.
pub fn user_data_to_tag(user_data: u64) -> (r: u32)
    ensures
        r == spec_user_data_to_tag(user_data),
        r < 0x1_0000,
{
    proof {
        assert((user_data & 0xffff) < 0x1_0000) by (bit_vector);
    }
    (user_data & 0xffff) as u32
}

/// The operation held in the word.
pub fn user_data_to_op(user_data: u64) -> (r: u32)
    ensures
        r == spec_user_data_to_op(user_data),
        r < 0x100,
{
    proof {
        assert(((user_data >> 16) & 0xff) < 0x100) by (bit_vector);
    }
    ((user_data >> 16) & 0xff) as u32
}

/// The target data held in the word.
pub fn user_data_to_tgt_data(user_data: u64) -> (r: u32)
    ensures
        r == spec_user_data_to_tgt_data(user_data),
        r < 0x1_0000,
{
    proof {
        assert(((user_data >> 24) & 0xffff) < 0x1_0000) by (bit_vector);
    }
    ((user_data >> 24) & 0xffff) as u32
}

/// Unpacking a packed word gives back the four values that went in.
pub proof fn lemma_user_data_roundtrip(tag: u16, op: u32, tgt_data: u32, is_target_io: bool)
    requires
        op < 0x100,
        tgt_data < 0x1_0000,
    ensures
        spec_user_data_to_tag(spec_build_user_data(tag, op, tgt_data, is_target_io)) == tag,
        spec_user_data_to_op(spec_build_user_data(tag, op, tgt_data, is_target_io)) == op,
        spec_user_data_to_tgt_data(spec_build_user_data(tag, op, tgt_data, is_target_io))
            == tgt_data,
        spec_is_target_io(spec_build_user_data(tag, op, tgt_data, is_target_io)) == is_target_io,
{
    let t = tag as u64;
    let o = op as u64;
    let d = tgt_data as u64;
    let m: u64 = if is_target_io { USER_DATA_TARGET_BIT } else { 0u64 };
    let w: u64 = t | (o << 16) | (d << 24) | m;
    assert(w == spec_build_user_data(tag, op, tgt_data, is_target_io));
    assert((w & 0xffff) == t && ((w >> 16) & 0xff) == o && ((w >> 24) & 0xffff) == d && ((w
        & 0x8000_0000_0000_0000) != 0 <==> m != 0)) by (bit_vector)
        requires
            w == t | (o << 16) | (d << 24) | m,
            t < 0x1_0000,
            o < 0x100,
            d < 0x1_0000,
            m == 0x8000_0000_0000_0000u64 || m == 0,
    ;
}

/// A positive number with a single bit set.
pub open spec fn is_power_of_two(p: u32) -> bool {
    p != 0 && (p & ((p - 1) as u32)) == 0
}

pub open spec fn spec_round_up(val: u32, rnd: u32) -> u32 {
    (((val + rnd - 1) as u32) & !((rnd - 1) as u32))
}

/// Rounds `val` up to a multiple of `rnd`, a power of two.
pub fn round_up(val: u32, rnd: u32) -> (r: u32)
    requires
        rnd >= 1,
        val + rnd - 1 <= u32::MAX,
    ensures
        r == spec_round_up(val, rnd),
        is_power_of_two(rnd) ==> r % rnd == 0 && val <= r && r - val < rnd,
{
    let a: u32 = val + (rnd - 1);
    let m: u32 = rnd - 1;
    proof {
        if is_power_of_two(rnd) {
            assert((a & !m) % rnd == 0 && val <= (a & !m) && (a & !m) - val < rnd) by (bit_vector)
                requires
                    rnd != 0,
                    rnd & m == 0,
                    m == rnd - 1,
                    a == val + m,
                    val <= a,
            ;
        }
    }
    a & !m
}

/// For a power of two `p`, no multiple of `p` lies between `x` and `round_up(x, p)`:
/// the result is the least multiple of `p` that is at least `x`.
pub proof fn lemma_round_up_is_least(x: u32, p: u32, m: int)
    requires
        is_power_of_two(p),
        x + p - 1 <= u32::MAX,
        m % (p as int) == 0,
        m >= x,
    ensures
        spec_round_up(x, p) % p == 0,
        spec_round_up(x, p) >= x,
        m >= spec_round_up(x, p),
{
    let a: u32 = (x + p - 1) as u32;
    let q: u32 = (p - 1) as u32;
    let r: u32 = a & !q;
    assert(r % p == 0 && x <= r && r - x < p) by (bit_vector)
        requires
            p != 0,
            p & q == 0,
            q == p - 1,
            a == x + q,
            x <= a,
            r == a & !q,
    ;
    let pi = p as int;
    let ri = r as int;
    assert(m >= ri) by (nonlinear_arith)
        requires
            pi > 0,
            m % pi == 0,
            ri % pi == 0,
            m > ri - pi,
    {
        let d = ri - m;
        if d > 0 {
            assert(d % pi == 0) by {
                vstd::arithmetic::div_mod::lemma_sub_mod_noop(ri, m, pi);
            }
            assert(d < pi);
            vstd::arithmetic::div_mod::lemma_small_mod(d as nat, pi as nat);
        }
    }
}

pub open spec fn spec_user_copy_pos(q_id: u16, tag: u16, offset: u32) -> u64 {
    (UBLKSRV_IO_BUF_OFFSET + (((q_id as u64) << 41) | ((tag as u64) << 25) | (offset as u64))) as u64
}

/// The driver-side position of byte `offset` in the buffer of `tag` on queue `q_id`.
pub fn ublk_user_copy_pos(q_id: u16, tag: u16, offset: u32) -> (r: u64)
    requires
        offset & !UBLK_IO_BUF_BITS_MASK == 0,
    ensures
        r == spec_user_copy_pos(q_id, tag, offset),
{
    let q: u64 = q_id as u64;
    let t: u64 = tag as u64;
    let o: u64 = offset as u64;
    let body: u64 = (q << 41) | (t << 25) | o;
    proof {
        assert(body < 0x0400_0000_0000_0000) by (bit_vector)
            requires
                body == (q << 41) | (t << 25) | o,
                q < 0x1_0000,
                t < 0x1_0000,
                o < 0x1_0000_0000,
        ;
    }
    UBLKSRV_IO_BUF_OFFSET + body
}

/// Two positions are equal only if queue, tag and offset are: the position
/// tells them apart for every tag below the greatest queue depth and every
/// offset inside one buffer.
pub proof fn lemma_user_copy_pos_injective(q1: u16, t1: u16, o1: u32, q2: u16, t2: u16, o2: u32)
    requires
        t1 < UBLK_MAX_QUEUE_DEPTH,
        t2 < UBLK_MAX_QUEUE_DEPTH,
        o1 & !UBLK_IO_BUF_BITS_MASK == 0,
        o2 & !UBLK_IO_BUF_BITS_MASK == 0,
        spec_user_copy_pos(q1, t1, o1) == spec_user_copy_pos(q2, t2, o2),
    ensures
        q1 == q2 && t1 == t2 && o1 == o2,
{
    let a1: u64 = q1 as u64;
    let b1: u64 = t1 as u64;
    let c1: u64 = o1 as u64;
    let a2: u64 = q2 as u64;
    let b2: u64 = t2 as u64;
    let c2: u64 = o2 as u64;
    let x1: u64 = (a1 << 41) | (b1 << 25) | c1;
    let x2: u64 = (a2 << 41) | (b2 << 25) | c2;
    assert(x1 < 0x0400_0000_0000_0000 && x2 < 0x0400_0000_0000_0000) by (bit_vector)
        requires
            x1 == (a1 << 41) | (b1 << 25) | c1,
            x2 == (a2 << 41) | (b2 << 25) | c2,
            a1 < 0x1_0000,
            b1 < 0x1000,
            c1 < 0x1_0000_0000,
            a2 < 0x1_0000,
            b2 < 0x1000,
            c2 < 0x1_0000_0000,
    ;
    assert(x1 == x2);
    assert(c1 & !0x01ff_ffffu64 == 0) by (bit_vector)
        requires
            o1 & !0x01ff_ffffu32 == 0,
            c1 == o1 as u64,
    ;
    assert(c2 & !0x01ff_ffffu64 == 0) by (bit_vector)
        requires
            o2 & !0x01ff_ffffu32 == 0,
            c2 == o2 as u64,
    ;
    assert(a1 == a2 && b1 == b2 && c1 == c2) by (bit_vector)
        requires
            (a1 << 41) | (b1 << 25) | c1 == (a2 << 41) | (b2 << 25) | c2,
            a1 < 0x1_0000,
            b1 < 0x1000,
            a2 < 0x1_0000,
            b2 < 0x1000,
            c1 & !0x01ff_ffffu64 == 0,
            c2 & !0x01ff_ffffu64 == 0,
    ;
}

} // verus!
