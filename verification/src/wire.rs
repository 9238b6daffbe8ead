//! Little-endian framing of the command payloads, and the ring entries that
//! carry them.

use vstd::prelude::*;

verus! {

/// `io_uring::squeue::Entry`, a 64-byte submission entry, carried through unread.
#[verifier::external_type_specification]
#[verifier::external_body]
pub struct ExEntry(io_uring::squeue::Entry);

/// `io_uring::squeue::Entry128`, a 128-byte submission entry, carried through unread.
#[verifier::external_type_specification]
#[verifier::external_body]
pub struct ExEntry128(io_uring::squeue::Entry128);

/// Byte `k` of `v`, counted from the least significant one.
pub open spec fn spec_le_byte(v: u64, k: nat) -> u8 {
    ((v >> ((8 * k) as u64)) & 0xff) as u8
}

/// The first `n` bytes of `v`, least significant first.
pub open spec fn spec_le_bytes(v: u64, n: nat) -> Seq<u8> {
    Seq::new(n, |k: int| spec_le_byte(v, k as nat))
}

/// `n` zero bytes.
pub open spec fn spec_zero_bytes(n: nat) -> Seq<u8> {
    Seq::new(n, |k: int| 0u8)
}

/// Appends the first `n` bytes of `v`, least significant first.
pub fn push_le_bytes(buf: &mut Vec<u8>, v: u64, n: u32)
    requires
        n <= 8,
    ensures
        final(buf)@ == old(buf)@ + spec_le_bytes(v, n as nat),
{
    let mut k: u32 = 0;
    while k < n
        invariant
            k <= n,
            n <= 8,
            buf@ == old(buf)@ + spec_le_bytes(v, k as nat),
        decreases n - k,
    {
        let sh: u64 = 8 * (k as u64);
        let w: u64 = (v >> sh) & 0xff;
        proof {
            assert(((v >> sh) & 0xff) < 0x100) by (bit_vector);
        }
        let b: u8 = w as u8;
        buf.push(b);
        proof {
            assert(b == spec_le_byte(v, k as nat));
            assert(buf@ =~= old(buf)@ + spec_le_bytes(v, (k + 1) as nat));
        }
        k = k + 1;
    }
}

/// Appends `n` zero bytes.
pub fn push_zero_bytes(buf: &mut Vec<u8>, n: u32)
    ensures
        final(buf)@ == old(buf)@ + spec_zero_bytes(n as nat),
{
    let mut k: u32 = 0;
    while k < n
        invariant
            k <= n,
            buf@ == old(buf)@ + spec_zero_bytes(k as nat),
        decreases n - k,
    {
        buf.push(0u8);
        proof {
            assert(buf@ =~= old(buf)@ + spec_zero_bytes((k + 1) as nat));
        }
        k = k + 1;
    }
}

/// The entry that `io_uring::opcode::UringCmd16` builds for the registered
/// file with index `fixed`, the command `cmd_op`, the payload `cmd` and the
/// user data `user_data`.
pub uninterp spec fn spec_uring_cmd16(fixed: u32, cmd_op: u32, cmd: Seq<u8>, user_data: u64)
    -> io_uring::squeue::Entry;

/// The entry that `io_uring::opcode::UringCmd80` builds for the file
/// descriptor `fd`, the command `cmd_op` and the payload `cmd`.
pub uninterp spec fn spec_uring_cmd80(fd: i32, cmd_op: u32, cmd: Seq<u8>)
    -> io_uring::squeue::Entry128;

/// Calls `io_uring::opcode::UringCmd16::new` on the registered file with
/// index `fixed`, sets the 16-byte payload and the user data, and builds the
/// entry. The entry is opaque here; the builder fills a zeroed entry from
/// its arguments alone, so the same arguments give the same entry.
#[verifier::external_body]
pub(crate) fn uring_cmd16(fixed: u32, cmd_op: u32, cmd: &Vec<u8>, user_data: u64) -> (sqe:
    io_uring::squeue::Entry)
    requires
        cmd@.len() == 16,
    ensures
        sqe == spec_uring_cmd16(fixed, cmd_op, cmd@, user_data),
{
    let mut buf = [0u8; 16];
    buf.copy_from_slice(cmd.as_slice());
    io_uring::opcode::UringCmd16::new(io_uring::types::Fixed(fixed), cmd_op)
        .cmd(buf)
        .build()
        .user_data(user_data)
}

/// Calls `io_uring::opcode::UringCmd80::new` on the file descriptor `fd`,
/// sets the 80-byte payload and builds the entry. The entry is opaque here;
/// the builder fills a zeroed entry from its arguments alone, so the same
/// arguments give the same entry.
#[verifier::external_body]
pub(crate) fn uring_cmd80(fd: i32, cmd_op: u32, cmd: &Vec<u8>) -> (sqe: io_uring::squeue::Entry128)
    requires
        cmd@.len() == 80,
    ensures
        sqe == spec_uring_cmd80(fd, cmd_op, cmd@),
{
    let mut buf = [0u8; 80];
    buf.copy_from_slice(cmd.as_slice());
    io_uring::opcode::UringCmd80::new(io_uring::types::Fd(fd), cmd_op).cmd(buf).build()
}

} // verus!
