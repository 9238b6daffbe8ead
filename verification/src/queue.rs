//! The per-queue I/O engine: one slot per tag, the commands that arm the
//! slots, the completions that release them, and the orderly stop.
//!
//! The engine owns no ring. Commands and target entries gather in `sq`; the
//! caller moves them to its ring, waits, and hands the completions back.

use vstd::prelude::*;
use crate::codec::{
    build_user_data, is_target_io, round_up, spec_build_user_data, spec_is_target_io,
    spec_round_up, spec_user_data_to_tag, user_data_to_tag,
};
use crate::dev::UblkDev;
use crate::error::UblkError;
use crate::uapi::{
    IO_DESC_SIZE, UBLKSRV_CMD_BUF_OFFSET, UBLK_F_USER_COPY, UBLK_F_ZONED,
    UBLK_IO_COMMIT_AND_FETCH_REQ, UBLK_IO_FETCH_REQ, UBLK_IO_RES_ABORT, UBLK_IO_RES_OK,
    UBLK_MAX_QUEUE_DEPTH,
};
use crate::wire::{push_le_bytes, spec_le_bytes, spec_uring_cmd16, uring_cmd16};

verus! {

/// The slot has to be fetched before the driver can use it.
pub const UBLK_IO_NEED_FETCH_RQ: u32 = 1;
/// The slot holds a result that has to be committed.
pub const UBLK_IO_NEED_COMMIT_RQ_COMP: u32 = 2;
/// The slot is not in the driver's hands.
pub const UBLK_IO_FREE: u32 = 4;

/// Index of the character device among the files registered with the ring.
pub const CDEV_FIXED_INDEX: u32 = 0;

/// The queue has seen an abort and arms no slot again.
pub const UBLK_QUEUE_STOPPING: u32 = 1;
pub const UBLK_QUEUE_IDLE: u32 = 2;

/// One slot of a queue.
#[derive(Debug, Clone, Copy, PartialEq, Eq, Structural)]
pub struct UblkIO {
    /// Address of the buffer that the queue allocated for this slot.
    pub __buf_addr: u64,
    /// Address that goes to the driver with the next command.
    pub buf_addr: u64,
    pub flags: u32,
    pub result: i32,
}

impl UblkIO {
    /// Whether the slot was completed or is free.
    pub fn is_done(&self) -> (r: bool)
        ensures
            r == (self.flags & (UBLK_IO_NEED_COMMIT_RQ_COMP | UBLK_IO_FREE) != 0),
    {
        self.flags & (UBLK_IO_NEED_COMMIT_RQ_COMP | UBLK_IO_FREE) != 0
    }
}

/// One command for the driver, before it is framed.
#[derive(Debug, Clone, Copy, PartialEq, Eq, Structural)]
pub struct UblkIoCmd {
    pub cmd_op: u32,
    pub q_id: u16,
    pub tag: u16,
    pub result: i32,
    pub addr: u64,
    pub user_data: u64,
}

/// The 16 bytes of a command: queue, tag, result and address, each least
/// significant byte first.
pub open spec fn spec_io_cmd_bytes(c: UblkIoCmd) -> Seq<u8> {
    spec_le_bytes(c.q_id as u64, 2) + spec_le_bytes(c.tag as u64, 2) + spec_le_bytes(
        (c.result as u32) as u64,
        4,
    ) + spec_le_bytes(c.addr, 8)
}

impl UblkIoCmd {
    /// The payload of the command as the driver reads it.
    pub fn to_bytes(&self) -> (r: Vec<u8>)
        ensures
            r@ == spec_io_cmd_bytes(*self),
            r@.len() == 16,
    {
        let mut buf: Vec<u8> = Vec::new();
        assert(buf@ =~= Seq::<u8>::empty());
        push_le_bytes(&mut buf, self.q_id as u64, 2);
        push_le_bytes(&mut buf, self.tag as u64, 2);
        let res: u32 = #[verifier::truncate] (self.result as u32);
        push_le_bytes(&mut buf, res as u64, 4);
        push_le_bytes(&mut buf, self.addr, 8);
        assert(buf@ =~= spec_io_cmd_bytes(*self));
        buf
    }

    /// The ring entry that carries the command to the character device,
    /// the first of the registered files.
    pub fn build_sqe(&self) -> (sqe: io_uring::squeue::Entry)
        ensures
            sqe == spec_uring_cmd16(
                CDEV_FIXED_INDEX,
                self.cmd_op,
                spec_io_cmd_bytes(*self),
                self.user_data,
            ),
    {
        let payload = self.to_bytes();
        uring_cmd16(CDEV_FIXED_INDEX, self.cmd_op, &payload, self.user_data)
    }
}

/// An entry that waits for the ring.
#[derive(Debug)]
pub enum UblkSqe {
    /// A command of the engine for the driver.
    Cmd(UblkIoCmd),
    /// An entry that the target made for its own I/O.
    Target(io_uring::squeue::Entry),
}

/// One completion, as the ring reports it.
#[derive(Debug, Clone, Copy, PartialEq, Eq, Structural)]
pub struct UblkCqe {
    pub user_data: u64,
    pub res: i32,
}

/// What is left to do for a completion once the engine has accounted for it.
#[derive(Debug, Clone, Copy, PartialEq, Eq, Structural)]
pub enum UblkCqeAction {
    /// Target I/O has completed: tell the target.
    TgtIoDone { tag: u32, res: i32, user_data: u64 },
    /// The driver has a request in the slot: hand it to the target.
    QueueIo { tag: u32 },
    /// The slot was released; nothing to do.
    Nothing,
}

/// The four states in which a slot rests between two calls: waiting for its
/// first fetch (5), in the driver's or the target's hands (0), completed and
/// waiting for its commit (6), released for good (4).
pub open spec fn slot_flags_valid(flags: u32) -> bool {
    flags == 5 || flags == 0 || flags == 6 || flags == 4
}

/// The command that a slot with these flags asks for, if any.
pub open spec fn spec_next_cmd_op(flags: u32) -> Option<u32> {
    if flags & UBLK_IO_FREE == 0 {
        None
    } else if flags & UBLK_IO_NEED_COMMIT_RQ_COMP != 0 {
        Some(UBLK_IO_COMMIT_AND_FETCH_REQ)
    } else if flags & UBLK_IO_NEED_FETCH_RQ != 0 {
        Some(UBLK_IO_FETCH_REQ)
    } else {
        None
    }
}

/// The command that slot `tag` of queue `q_id` asks for, if any.
pub open spec fn spec_next_io_cmd(q_id: u16, tag: u16, io: UblkIO) -> Option<UblkIoCmd> {
    match spec_next_cmd_op(io.flags) {
        None => None,
        Some(op) => Some(
            UblkIoCmd {
                cmd_op: op,
                q_id,
                tag,
                result: io.result,
                addr: io.buf_addr,
                user_data: spec_build_user_data(tag, op, 0, false),
            },
        ),
    }
}

/// The slot after its command went out.
pub open spec fn spec_issued(io: UblkIO) -> UblkIO {
    UblkIO { flags: 0, ..io }
}

/// The slots after each of the first `n` was asked for its command.
pub open spec fn spec_primed_slots(ios: Seq<UblkIO>, n: int) -> Seq<UblkIO> {
    Seq::new(
        ios.len(),
        |t: int|
            if t < n && spec_next_cmd_op(ios[t].flags) is Some {
                spec_issued(ios[t])
            } else {
                ios[t]
            },
    )
}

/// The commands of the first `n` slots, by rising tag.
pub open spec fn spec_primed_cmds(q_id: u16, ios: Seq<UblkIO>, n: int) -> Seq<UblkSqe>
    decreases n,
{
    if n <= 0 {
        Seq::empty()
    } else {
        let before = spec_primed_cmds(q_id, ios, n - 1);
        match spec_next_io_cmd(q_id, (n - 1) as u16, ios[n - 1]) {
            None => before,
            Some(c) => before.push(UblkSqe::Cmd(c)),
        }
    }
}

/// How many of the entries are commands of the engine.
pub open spec fn spec_count_cmds(sqes: Seq<UblkSqe>) -> nat
    decreases sqes.len(),
{
    if sqes.len() == 0 {
        0
    } else {
        spec_count_cmds(sqes.drop_last()) + if sqes.last() is Cmd {
            1nat
        } else {
            0nat
        }
    }
}

/// The completion answers a command with the result OK: the request in its
/// slot goes to the target's `queue_io`.
pub open spec fn spec_hands_request(c: UblkCqe) -> bool {
    !spec_is_target_io(c.user_data) && c.res == UBLK_IO_RES_OK
}

/// None of the completions hands a request to the target, so `queue_io` is
/// not called for any of them.
pub open spec fn spec_no_request(cqes: Seq<UblkCqe>) -> bool {
    forall|i: int| 0 <= i < cqes.len() ==> !spec_hands_request(#[trigger] cqes[i])
}

/// One of the completions answers a command with an abort.
pub open spec fn spec_has_abort(cqes: Seq<UblkCqe>) -> bool {
    exists|i: int|
        0 <= i < cqes.len() && !spec_is_target_io((#[trigger] cqes[i]).user_data) && cqes[i].res
            == UBLK_IO_RES_ABORT
}

/// How many of the completions answer a command of the engine.
pub open spec fn spec_count_cmd_cqes(cqes: Seq<UblkCqe>) -> nat
    decreases cqes.len(),
{
    if cqes.len() == 0 {
        0
    } else {
        spec_count_cmd_cqes(cqes.drop_last()) + if spec_is_target_io(cqes.last().user_data) {
            0nat
        } else {
            1nat
        }
    }
}

proof fn lemma_flag_bits()
    by (bit_vector)
    ensures
        forall|f: u32| #[trigger] ((f | 6) & 4) != 0 && ((f | 6) & 2) != 0,
        forall|f: u32|
            (f == 5 || f == 0 || f == 6 || f == 4) ==> {
                let g = #[trigger] (f & !1u32);
                (g == 0 || g == 6 || g == 4) && (f & 1 == 0 ==> g == f)
            },
        forall|f: u32| (f == 0 || f == 6 || f == 4) ==> #[trigger] (f & 1) == 0,
        forall|f: u32| (f == 5) ==> #[trigger] (f & 1) != 0,
        forall|s: u32| #[trigger] ((s | 1) & 1) != 0,
        0u32 & 4 == 0,
        4u32 & 4 != 0 && 4u32 & 2 == 0 && 4u32 & 1 == 0,
        5u32 & 4 != 0 && 5u32 & 2 == 0 && 5u32 & 1 != 0,
        6u32 & 4 != 0 && 6u32 & 2 != 0,
{
}

/// One queue of a device.
pub struct UblkQueue<'a> {
    pub q_id: u16,
    pub q_depth: u32,
    /// Address of the descriptors that the driver shares with this queue.
    pub io_cmd_buf: u64,
    pub dev: &'a UblkDev,
    /// Commands that went out and whose completion has not come back.
    pub cmd_inflight: u32,
    pub q_state: u32,
    pub ios: Vec<UblkIO>,
    /// Entries that wait to be moved to the ring, oldest first.
    pub sq: Vec<UblkSqe>,
    /// Commands issued since the queue was made.
    pub pushed: Ghost<nat>,
    /// Commands that were handed out for the ring.
    pub handed: Ghost<nat>,
    /// Completions of commands handled since the queue was made.
    pub reaped: Ghost<nat>,
}

/// What a target may do to a queue while it handles a request or a
/// completion: it issues commands and entries, and rebinds buffers. It
/// neither reaps completions nor takes back an entry that waits, it does not
/// change the queue's state or shape, and it sets no slot back to waiting
/// for its first fetch.
pub open spec fn target_step(pre: &UblkQueue, post: &UblkQueue) -> bool {
    &&& post.wf()
    &&& post.same_shape(pre)
    &&& post.q_state == pre.q_state
    &&& post.reaped@ == pre.reaped@
    &&& post.handed@ == pre.handed@
    &&& post.pushed@ >= pre.pushed@
    &&& pre.sq@.is_prefix_of(post.sq@)
    &&& pre.no_fetch_pending() ==> post.no_fetch_pending()
}

/// The hooks of a target that serve one queue.
pub trait UblkQueueImpl {
    /// Handles the request that the driver put into slot `tag`. The queue
    /// has room for at least one more command in flight.
    fn queue_io(&self, q: &mut UblkQueue, tag: u32) -> (r: Result<i32, UblkError>)
        requires
            old(q).wf(),
            tag < old(q).q_depth,
            old(q).cmd_inflight < u32::MAX,
        ensures
            target_step(old(q), final(q)),
    ;

    /// Handles the completion of an entry that the target made.
    /// Unless the target says otherwise, nothing is done.
    fn tgt_io_done(&self, q: &mut UblkQueue, tag: u32, res: i32, user_data: u64)
        requires
            old(q).wf(),
        ensures
            target_step(old(q), final(q)),
    {
    }

    /// Prepares the target for a queue that was just made. Unless the
    /// target says otherwise, nothing is done.
    fn setup_queue(&mut self, q: &UblkQueue, dev: &UblkDev) -> (r: Result<i32, UblkError>) {
        Ok(0)
    }
}

impl<'a> UblkQueue<'a> {
    /// The queue's invariant: one slot per tag, each slot in one of its four
    /// resting states, as many commands in flight as were issued and not yet
    /// completed, and every issued command either handed out for the ring or
    /// still waiting for it.
    pub open spec fn wf(&self) -> bool {
        &&& self.ios@.len() == self.q_depth
        &&& self.q_depth <= 0xffff
        &&& forall|t: int|
            0 <= t < self.ios@.len() ==> slot_flags_valid(#[trigger] self.ios@[t].flags)
        &&& self.cmd_inflight as int == self.pushed@ - self.reaped@
        &&& self.pushed@ == self.handed@ + spec_count_cmds(self.sq@)
    }

    /// Identity, depth and device are those of `other`.
    pub open spec fn same_shape(&self, other: &UblkQueue) -> bool {
        &&& self.q_id == other.q_id
        &&& self.q_depth == other.q_depth
        &&& self.io_cmd_buf == other.io_cmd_buf
        &&& self.dev == other.dev
    }

    /// Whether the queue has seen an abort.
    pub open spec fn stopping(&self) -> bool {
        self.q_state & UBLK_QUEUE_STOPPING != 0
    }

    /// No slot waits for its first fetch.
    pub open spec fn no_fetch_pending(&self) -> bool {
        forall|t: int|
            0 <= t < self.ios@.len() ==> (#[trigger] self.ios@[t].flags) & UBLK_IO_NEED_FETCH_RQ
                == 0
    }

    /// Size in bytes of the descriptor buffer of a queue of `depth` slots,
    /// rounded up to whole pages.
    pub fn cmd_buf_sz(depth: u32, page_sz: u32) -> (r: u32)
        requires
            page_sz >= 1,
            depth * IO_DESC_SIZE + page_sz - 1 <= u32::MAX,
        ensures
            r == spec_round_up((depth * IO_DESC_SIZE) as u32, page_sz),
    {
        let size: u32 = depth * IO_DESC_SIZE;
        round_up(size, page_sz)
    }

    /// Offset of the descriptor buffer of queue `q_id` in the device file.
    pub fn cmd_buf_offset(q_id: u16) -> (r: i64)
        ensures
            r == UBLKSRV_CMD_BUF_OFFSET + q_id * (UBLK_MAX_QUEUE_DEPTH * IO_DESC_SIZE),
    {
        let per_queue: u64 = (UBLK_MAX_QUEUE_DEPTH as u64) * (IO_DESC_SIZE as u64);
        (UBLKSRV_CMD_BUF_OFFSET + (q_id as u64) * per_queue) as i64
    }

    /// A queue of the device's depth whose slots all wait for their first
    /// fetch. `bufs` holds the address of one buffer per tag; each slot sends
    /// its own buffer to the driver unless the device copies by itself.
    pub fn new(q_id: u16, dev: &'a UblkDev, io_cmd_buf: u64, bufs: &Vec<u64>) -> (q: UblkQueue<'a>)
        requires
            bufs@.len() == dev.dev_info.queue_depth,
        ensures
            q.wf(),
            q.q_id == q_id,
            q.q_depth == dev.dev_info.queue_depth,
            q.io_cmd_buf == io_cmd_buf,
            q.dev == dev,
            q.cmd_inflight == 0,
            q.q_state == 0,
            q.sq@.len() == 0,
            q.pushed@ == 0 && q.reaped@ == 0 && q.handed@ == 0,
            q.ios@.len() == bufs@.len(),
            forall|t: int|
                0 <= t < bufs@.len() ==> #[trigger] q.ios@[t] == (UblkIO {
                    __buf_addr: bufs@[t],
                    buf_addr: if dev.dev_info.flags & UBLK_F_USER_COPY == 0 {
                        bufs@[t]
                    } else {
                        0
                    },
                    flags: 5,
                    result: -1i32,
                }),
    {
        let depth: u32 = dev.dev_info.queue_depth as u32;
        let user_copy: bool = (dev.dev_info.flags & UBLK_F_USER_COPY) != 0;
        let mut ios: Vec<UblkIO> = Vec::new();
        let mut i: usize = 0;
        while i < bufs.len()
            invariant
                i <= bufs@.len(),
                ios@.len() == i,
                user_copy == (dev.dev_info.flags & UBLK_F_USER_COPY != 0),
                forall|t: int|
                    0 <= t < i ==> #[trigger] ios@[t] == (UblkIO {
                        __buf_addr: bufs@[t],
                        buf_addr: if dev.dev_info.flags & UBLK_F_USER_COPY == 0 {
                            bufs@[t]
                        } else {
                            0
                        },
                        flags: 5,
                        result: -1i32,
                    }),
            decreases bufs@.len() - i,
        {
            let addr: u64 = bufs[i];
            ios.push(
                UblkIO {
                    __buf_addr: addr,
                    buf_addr: if user_copy {
                        0
                    } else {
                        addr
                    },
                    flags: UBLK_IO_NEED_FETCH_RQ | UBLK_IO_FREE,
                    result: -1,
                },
            );
            proof {
                assert(1u32 | 4u32 == 5u32) by (bit_vector);
            }
            i = i + 1;
        }
        UblkQueue {
            q_id,
            q_depth: depth,
            io_cmd_buf,
            dev,
            cmd_inflight: 0,
            q_state: 0,
            ios,
            sq: Vec::new(),
            pushed: Ghost(0),
            reaped: Ghost(0),
            handed: Ghost(0),
        }
    }

    /// Address of the buffer that the queue allocated for slot `tag`.
    pub fn get_buf_addr(&self, tag: u32) -> (r: u64)
        requires
            tag < self.ios@.len(),
        ensures
            r == self.ios@[tag as int].__buf_addr,
    {
        self.ios[tag as usize].__buf_addr
    }

    /// Binds slot `tag` to another address for its next command. Only a
    /// device that copies by itself or is zoned rebinds buffers.
    pub fn set_buf_addr(&mut self, tag: u32, addr: u64)
        requires
            old(self).wf(),
            tag < old(self).q_depth,
            old(self).dev.dev_info.flags & (UBLK_F_USER_COPY | UBLK_F_ZONED) != 0,
        ensures
            final(self).ios@ == old(self).ios@.update(
                tag as int,
                UblkIO { buf_addr: addr, ..old(self).ios@[tag as int] },
            ),
            final(self).sq@ == old(self).sq@,
            final(self).cmd_inflight == old(self).cmd_inflight,
            final(self).pushed@ == old(self).pushed@,
            target_step(old(self), final(self)),
    {
        let io = self.ios[tag as usize];
        self.ios.set(tag as usize, UblkIO { buf_addr: addr, ..io });
    }

    /// Address of the descriptor of slot `idx` in the shared buffer.
    pub fn get_iod(&self, idx: u32) -> (r: u64)
        requires
            self.io_cmd_buf + idx * IO_DESC_SIZE <= u64::MAX,
        ensures
            r == self.io_cmd_buf + idx * IO_DESC_SIZE,
    {
        self.io_cmd_buf + (idx as u64) * 24
    }

    /// The command that slot `tag` asks for, if any: none while the slot is
    /// not free; a commit that fetches again when it holds a result; a fetch
    /// when it waits for its first one.
    pub fn __queue_io_cmd(&self, tag: u16) -> (r: Option<UblkIoCmd>)
        requires
            tag < self.ios@.len(),
        ensures
            r == spec_next_io_cmd(self.q_id, tag, self.ios@[tag as int]),
    {
        let io = self.ios[tag as usize];
        if (io.flags & UBLK_IO_FREE) == 0 {
            return None;
        }
        let cmd_op: u32 = if (io.flags & UBLK_IO_NEED_COMMIT_RQ_COMP) != 0 {
            UBLK_IO_COMMIT_AND_FETCH_REQ
        } else if (io.flags & UBLK_IO_NEED_FETCH_RQ) != 0 {
            UBLK_IO_FETCH_REQ
        } else {
            return None;
        };
        let data = build_user_data(tag, cmd_op, 0, false);
        Some(
            UblkIoCmd {
                cmd_op,
                q_id: self.q_id,
                tag,
                result: io.result,
                addr: io.buf_addr,
                user_data: data,
            },
        )
    }

    /// Issues the command that slot `tag` asks for. When there is one, it is
    /// appended to the waiting entries, the slot's flags are cleared and one
    /// more command is in flight; the result is 1. Otherwise nothing changes
    /// and the result is 0.
    pub fn queue_io_cmd(&mut self, tag: u16) -> (r: i32)
        requires
            tag < old(self).ios@.len(),
            old(self).cmd_inflight < u32::MAX,
        ensures
            final(self).same_shape(old(self)),
            final(self).q_state == old(self).q_state,
            final(self).reaped@ == old(self).reaped@,
            final(self).handed@ == old(self).handed@,
            final(self).pushed@ - spec_count_cmds(final(self).sq@) == old(self).pushed@
                - spec_count_cmds(old(self).sq@),
            match spec_next_io_cmd(old(self).q_id, tag, old(self).ios@[tag as int]) {
                None => {
                    &&& r == 0
                    &&& final(self).ios@ == old(self).ios@
                    &&& final(self).sq@ == old(self).sq@
                    &&& final(self).cmd_inflight == old(self).cmd_inflight
                    &&& final(self).pushed@ == old(self).pushed@
                },
                Some(c) => {
                    &&& r == 1
                    &&& final(self).ios@ == old(self).ios@.update(
                        tag as int,
                        spec_issued(old(self).ios@[tag as int]),
                    )
                    &&& final(self).sq@ == old(self).sq@.push(UblkSqe::Cmd(c))
                    &&& final(self).cmd_inflight == old(self).cmd_inflight + 1
                    &&& final(self).pushed@ == old(self).pushed@ + 1
                },
            },
    {
        match self.__queue_io_cmd(tag) {
            None => 0,
            Some(c) => {
                let io = self.ios[tag as usize];
                self.sq.push(UblkSqe::Cmd(c));
                self.cmd_inflight = self.cmd_inflight + 1;
                self.ios.set(tag as usize, UblkIO { flags: 0, ..io });
                proof {
                    self.pushed = Ghost((self.pushed@ + 1) as nat);
                    assert(self.sq@.drop_last() =~= old(self).sq@);
                }
                1
            },
        }
    }

    /// Arms every slot: asks each tag in turn for its command. On a new
    /// queue this issues one fetch per tag. Afterwards no slot waits for its
    /// first fetch.
    pub fn submit_fetch_commands(&mut self)
        requires
            old(self).wf(),
            old(self).cmd_inflight + old(self).q_depth <= u32::MAX,
        ensures
            final(self).wf(),
            final(self).same_shape(old(self)),
            final(self).q_state == old(self).q_state,
            final(self).reaped@ == old(self).reaped@,
            final(self).handed@ == old(self).handed@,
            final(self).ios@ == spec_primed_slots(old(self).ios@, old(self).q_depth as int),
            final(self).sq@ == old(self).sq@ + spec_primed_cmds(
                old(self).q_id,
                old(self).ios@,
                old(self).q_depth as int,
            ),
            final(self).cmd_inflight == old(self).cmd_inflight + spec_primed_cmds(
                old(self).q_id,
                old(self).ios@,
                old(self).q_depth as int,
            ).len(),
            final(self).no_fetch_pending(),
    {
        let mut i: u32 = 0;
        proof {
            lemma_flag_bits();
            assert(self.ios@ =~= spec_primed_slots(old(self).ios@, 0));
            assert(self.sq@ =~= old(self).sq@ + spec_primed_cmds(
                old(self).q_id,
                old(self).ios@,
                0,
            ));
        }
        while i < self.q_depth
            invariant
                i <= self.q_depth,
                old(self).wf(),
                old(self).cmd_inflight + old(self).q_depth <= u32::MAX,
                self.same_shape(old(self)),
                self.q_state == old(self).q_state,
                self.reaped@ == old(self).reaped@,
                self.handed@ == old(self).handed@,
                self.pushed@ == self.handed@ + spec_count_cmds(self.sq@),
                self.ios@ == spec_primed_slots(old(self).ios@, i as int),
                self.sq@ == old(self).sq@ + spec_primed_cmds(
                    old(self).q_id,
                    old(self).ios@,
                    i as int,
                ),
                spec_primed_cmds(old(self).q_id, old(self).ios@, i as int).len() <= i,
                self.cmd_inflight == old(self).cmd_inflight + spec_primed_cmds(
                    old(self).q_id,
                    old(self).ios@,
                    i as int,
                ).len(),
                self.pushed@ == old(self).pushed@ + spec_primed_cmds(
                    old(self).q_id,
                    old(self).ios@,
                    i as int,
                ).len(),
            decreases self.q_depth - i,
        {
            let ghost before = *self;
            self.queue_io_cmd(i as u16);
            proof {
                let n = i as int;
                assert(before.ios@[n] == old(self).ios@[n]);
                assert(self.ios@ =~= spec_primed_slots(old(self).ios@, n + 1));
                assert(self.sq@ =~= old(self).sq@ + spec_primed_cmds(
                    old(self).q_id,
                    old(self).ios@,
                    n + 1,
                ));
            }
            i = i + 1;
        }
        proof {
            assert forall|t: int| 0 <= t < self.ios@.len() implies slot_flags_valid(
                #[trigger] self.ios@[t].flags,
            ) && self.ios@[t].flags & UBLK_IO_NEED_FETCH_RQ == 0 by {
                let f = old(self).ios@[t].flags;
                assert(slot_flags_valid(f));
            }
        }
    }

    /// Whether no command is in flight.
    pub fn queue_is_idle(&self) -> (r: bool)
        ensures
            r == (self.cmd_inflight == 0),
    {
        self.cmd_inflight == 0
    }

    /// Whether the queue is stopping and no command is in flight.
    pub fn queue_is_done(&self) -> (r: bool)
        ensures
            r == (self.stopping() && self.cmd_inflight == 0),
    {
        (self.q_state & UBLK_QUEUE_STOPPING) != 0 && self.queue_is_idle()
    }

    /// Records `res` as the result of slot `tag` and marks the slot as
    /// completed and free.
    fn mark_io_done(&mut self, tag: u16, res: i32)
        requires
            tag < old(self).ios@.len(),
        ensures
            final(self).same_shape(old(self)),
            final(self).q_state == old(self).q_state,
            final(self).cmd_inflight == old(self).cmd_inflight,
            final(self).pushed@ == old(self).pushed@,
            final(self).reaped@ == old(self).reaped@,
            final(self).handed@ == old(self).handed@,
            final(self).sq@ == old(self).sq@,
            final(self).ios@ == old(self).ios@.update(
                tag as int,
                UblkIO {
                    flags: old(self).ios@[tag as int].flags | (UBLK_IO_NEED_COMMIT_RQ_COMP
                        | UBLK_IO_FREE),
                    result: res,
                    ..old(self).ios@[tag as int]
                },
            ),
    {
        let io = self.ios[tag as usize];
        self.ios.set(
            tag as usize,
            UblkIO {
                flags: io.flags | (UBLK_IO_NEED_COMMIT_RQ_COMP | UBLK_IO_FREE),
                result: res,
                ..io
            },
        );
    }

    /// Completes the request in slot `tag` with `res`, the number of bytes
    /// done or a negated error number: exactly one command goes out, a commit
    /// that carries `res` and fetches the next request, and the slot is in the
    /// driver's hands again.
    pub fn complete_io(&mut self, tag: u16, res: i32)
        requires
            old(self).wf(),
            tag < old(self).q_depth,
            old(self).cmd_inflight < u32::MAX,
        ensures
            target_step(old(self), final(self)),
            final(self).ios@ == old(self).ios@.update(
                tag as int,
                UblkIO { flags: 0, result: res, ..old(self).ios@[tag as int] },
            ),
            final(self).sq@ == old(self).sq@.push(
                UblkSqe::Cmd(
                    UblkIoCmd {
                        cmd_op: UBLK_IO_COMMIT_AND_FETCH_REQ,
                        q_id: old(self).q_id,
                        tag,
                        result: res,
                        addr: old(self).ios@[tag as int].buf_addr,
                        user_data: spec_build_user_data(
                            tag,
                            UBLK_IO_COMMIT_AND_FETCH_REQ,
                            0,
                            false,
                        ),
                    },
                ),
            ),
            final(self).cmd_inflight == old(self).cmd_inflight + 1,
            final(self).pushed@ == old(self).pushed@ + 1,
    {
        proof {
            lemma_flag_bits();
            assert((UBLK_IO_NEED_COMMIT_RQ_COMP | UBLK_IO_FREE) == 6u32) by (bit_vector);
        }
        self.mark_io_done(tag, res);
        self.queue_io_cmd(tag);
        proof {
            assert(final(self).ios@ =~= old(self).ios@.update(
                tag as int,
                UblkIO { flags: 0, result: res, ..old(self).ios@[tag as int] },
            ));
            assert forall|t: int| 0 <= t < self.ios@.len() implies slot_flags_valid(
                #[trigger] self.ios@[t].flags,
            ) by {
                assert(slot_flags_valid(old(self).ios@[t].flags));
            }
            if old(self).no_fetch_pending() {
                assert forall|t: int| 0 <= t < self.ios@.len() implies (
                #[trigger] self.ios@[t].flags) & UBLK_IO_NEED_FETCH_RQ == 0 by {
                    assert(old(self).ios@[t].flags & UBLK_IO_NEED_FETCH_RQ == 0);
                }
            }
        }
    }

    /// Appends an entry that the target made for its own I/O. The engine
    /// does not count it as a command in flight.
    pub fn queue_tgt_sqe(&mut self, sqe: io_uring::squeue::Entry)
        requires
            old(self).wf(),
        ensures
            target_step(old(self), final(self)),
            final(self).ios@ == old(self).ios@,
            final(self).sq@ == old(self).sq@.push(UblkSqe::Target(sqe)),
            final(self).cmd_inflight == old(self).cmd_inflight,
            final(self).pushed@ == old(self).pushed@,
    {
        self.sq.push(UblkSqe::Target(sqe));
        proof {
            assert(self.sq@.drop_last() =~= old(self).sq@);
        }
    }

    /// Accounts for one completion and says what is left to do for it.
    ///
    /// A completion of target I/O changes nothing and goes to the target. A
    /// completion of a command takes one command out of flight. An abort, or
    /// any completion once the queue is stopping, makes the queue stopping
    /// and takes the wish for a fetch from the slot. A completion with the
    /// result OK hands the slot to the target; any other result leaves the
    /// slot free and nothing more.
    pub fn reap_cqe(&mut self, user_data: u64, res: i32) -> (r: UblkCqeAction)
        requires
            old(self).wf(),
            !spec_is_target_io(user_data) ==> spec_user_data_to_tag(user_data) < old(self).q_depth
                && old(self).cmd_inflight > 0,
        ensures
            final(self).wf(),
            final(self).same_shape(old(self)),
            final(self).sq@ == old(self).sq@,
            final(self).pushed@ == old(self).pushed@,
            final(self).handed@ == old(self).handed@,
            old(self).no_fetch_pending() ==> final(self).no_fetch_pending(),
            spec_is_target_io(user_data) ==> {
                &&& r == (UblkCqeAction::TgtIoDone {
                    tag: spec_user_data_to_tag(user_data),
                    res,
                    user_data,
                })
                &&& final(self).ios@ == old(self).ios@
                &&& final(self).q_state == old(self).q_state
                &&& final(self).cmd_inflight == old(self).cmd_inflight
                &&& final(self).reaped@ == old(self).reaped@
            },
            !spec_is_target_io(user_data) ==> {
                let tag = spec_user_data_to_tag(user_data);
                let io = old(self).ios@[tag as int];
                let latch = res == UBLK_IO_RES_ABORT || old(self).stopping();
                &&& final(self).cmd_inflight == old(self).cmd_inflight - 1
                &&& final(self).reaped@ == old(self).reaped@ + 1
                &&& final(self).q_state == if latch {
                    old(self).q_state | UBLK_QUEUE_STOPPING
                } else {
                    old(self).q_state
                }
                &&& final(self).stopping() == latch
                &&& r == if res == UBLK_IO_RES_OK {
                    UblkCqeAction::QueueIo { tag }
                } else {
                    UblkCqeAction::Nothing
                }
                &&& final(self).ios@ == old(self).ios@.update(
                    tag as int,
                    UblkIO {
                        flags: if res != UBLK_IO_RES_OK {
                            UBLK_IO_FREE
                        } else if latch {
                            io.flags & !UBLK_IO_NEED_FETCH_RQ
                        } else {
                            io.flags
                        },
                        ..io
                    },
                )
            },
    {
        let tag = user_data_to_tag(user_data);
        if is_target_io(user_data) {
            return UblkCqeAction::TgtIoDone { tag, res, user_data };
        }
        proof {
            lemma_flag_bits();
        }
        self.cmd_inflight = self.cmd_inflight - 1;
        proof {
            self.reaped = Ghost((self.reaped@ + 1) as nat);
        }
        let io = self.ios[tag as usize];
        let mut flags: u32 = io.flags;
        if res == UBLK_IO_RES_ABORT || (self.q_state & UBLK_QUEUE_STOPPING) != 0 {
            self.q_state = self.q_state | UBLK_QUEUE_STOPPING;
            flags = flags & !UBLK_IO_NEED_FETCH_RQ;
        }
        let action = if res == UBLK_IO_RES_OK {
            UblkCqeAction::QueueIo { tag }
        } else {
            flags = UBLK_IO_FREE;
            UblkCqeAction::Nothing
        };
        self.ios.set(tag as usize, UblkIO { flags, ..io });
        proof {
            assert(slot_flags_valid(io.flags));
            assert(slot_flags_valid(flags));
            assert forall|t: int| 0 <= t < self.ios@.len() implies slot_flags_valid(
                #[trigger] self.ios@[t].flags,
            ) by {
                assert(slot_flags_valid(old(self).ios@[t].flags));
            }
            if old(self).no_fetch_pending() {
                assert(io.flags & UBLK_IO_NEED_FETCH_RQ == 0);
                assert forall|t: int| 0 <= t < self.ios@.len() implies (
                #[trigger] self.ios@[t].flags) & UBLK_IO_NEED_FETCH_RQ == 0 by {
                    assert(old(self).ios@[t].flags & UBLK_IO_NEED_FETCH_RQ == 0);
                }
            }
        }
        action
    }

    /// Hands the completion of a target entry to the target.
    pub fn handle_tgt_cqe<T: UblkQueueImpl>(&mut self, ops: &T, res: i32, data: u64)
        requires
            old(self).wf(),
        ensures
            target_step(old(self), final(self)),
    {
        let tag = user_data_to_tag(data);
        ops.tgt_io_done(self, tag, res, data);
    }

    /// Handles one completion: accounts for it as `reap_cqe` does and then
    /// calls the target's hook that the action names. The result is what
    /// `queue_io` returned, and `Ok(0)` where it was not called.
    pub fn handle_cqe<T: UblkQueueImpl>(&mut self, ops: &T, user_data: u64, res: i32) -> (r:
        Result<i32, UblkError>)
        requires
            old(self).wf(),
            !spec_is_target_io(user_data) ==> spec_user_data_to_tag(user_data) < old(self).q_depth
                && old(self).cmd_inflight > 0,
        ensures
            final(self).wf(),
            final(self).same_shape(old(self)),
            final(self).pushed@ >= old(self).pushed@,
            final(self).handed@ == old(self).handed@,
            old(self).sq@.is_prefix_of(final(self).sq@),
            old(self).no_fetch_pending() ==> final(self).no_fetch_pending(),
            spec_is_target_io(user_data) ==> target_step(old(self), final(self)) && r is Ok,
            r is Err ==> !spec_is_target_io(user_data) && res == UBLK_IO_RES_OK,
            !spec_is_target_io(user_data) ==> {
                &&& final(self).reaped@ == old(self).reaped@ + 1
                &&& final(self).stopping() == (res == UBLK_IO_RES_ABORT || old(self).stopping())
            },
            !spec_is_target_io(user_data) && res != UBLK_IO_RES_OK ==> {
                &&& r is Ok
                &&& final(self).sq@ == old(self).sq@
                &&& final(self).cmd_inflight == old(self).cmd_inflight - 1
                &&& final(self).ios@ == old(self).ios@.update(
                    spec_user_data_to_tag(user_data) as int,
                    UblkIO {
                        flags: UBLK_IO_FREE,
                        ..old(self).ios@[spec_user_data_to_tag(user_data) as int]
                    },
                )
            },
    {
        match self.reap_cqe(user_data, res) {
            UblkCqeAction::TgtIoDone { tag, res, user_data } => {
                self.handle_tgt_cqe(ops, res, user_data);
                Ok(0)
            },
            UblkCqeAction::QueueIo { tag } => ops.queue_io(self, tag),
            UblkCqeAction::Nothing => Ok(0),
        }
    }

    /// Handles the completions in the order given and returns their number,
    /// or the first error of `queue_io`, after which no further completion is
    /// handled. Only `queue_io` can fail: where no completion hands a request
    /// to the target, all are handled. Once all are handled, the queue is
    /// stopping if it was or if one of them was an abort, and the commands
    /// in flight are those before, less the completions of commands, plus
    /// what the target issued. Without completions nothing changes.
    pub fn reap_events_uring<T: UblkQueueImpl>(&mut self, ops: &T, cqes: &Vec<UblkCqe>) -> (r:
        Result<usize, UblkError>)
        requires
            old(self).wf(),
            spec_count_cmd_cqes(cqes@) <= old(self).cmd_inflight,
            forall|i: int|
                0 <= i < cqes@.len() && !spec_is_target_io(#[trigger] cqes@[i].user_data)
                    ==> spec_user_data_to_tag(cqes@[i].user_data) < old(self).q_depth,
        ensures
            final(self).wf(),
            final(self).same_shape(old(self)),
            final(self).pushed@ >= old(self).pushed@,
            final(self).handed@ == old(self).handed@,
            old(self).sq@.is_prefix_of(final(self).sq@),
            old(self).no_fetch_pending() ==> final(self).no_fetch_pending(),
            old(self).stopping() ==> final(self).stopping(),
            r is Ok ==> r->Ok_0 == cqes@.len() && final(self).reaped@ == old(self).reaped@
                + spec_count_cmd_cqes(cqes@),
            spec_no_request(cqes@) ==> r is Ok,
            r is Ok ==> {
                &&& final(self).stopping() == (old(self).stopping() || spec_has_abort(cqes@))
                &&& final(self).cmd_inflight + spec_count_cmd_cqes(cqes@) == old(self).cmd_inflight + (final(self).pushed@ - old(self).pushed@)
            },
            cqes@.len() == 0 ==> *final(self) == *old(self),
    {
        let mut i: usize = 0;
        proof {
            assert(cqes@.take(0) =~= Seq::<UblkCqe>::empty());
            assert(cqes@.take(cqes@.len() as int) =~= cqes@);
            lemma_count_cmd_cqes_prefix(cqes@, cqes@.len() as int);
        }
        while i < cqes.len()
            invariant
                i <= cqes@.len(),
                self.wf(),
                self.same_shape(old(self)),
                self.pushed@ >= old(self).pushed@,
                self.handed@ == old(self).handed@,
                old(self).sq@.is_prefix_of(self.sq@),
                old(self).no_fetch_pending() ==> self.no_fetch_pending(),
                old(self).stopping() ==> self.stopping(),
                self.reaped@ == old(self).reaped@ + spec_count_cmd_cqes(cqes@.take(i as int)),
                self.stopping() == (old(self).stopping() || spec_has_abort(cqes@.take(i as int))),
                i == 0 ==> *self == *old(self),
                spec_count_cmd_cqes(cqes@) <= old(self).cmd_inflight,
                old(self).wf(),
                forall|k: int|
                    0 <= k < cqes@.len() && !spec_is_target_io(#[trigger] cqes@[k].user_data)
                        ==> spec_user_data_to_tag(cqes@[k].user_data) < old(self).q_depth,
            decreases cqes@.len() - i,
        {
            let cqe = cqes[i];
            proof {
                assert(cqes@.take(i + 1).drop_last() =~= cqes@.take(i as int));
                assert(cqes@.take(i + 1).last() == cqes@[i as int]);
                lemma_count_cmd_cqes_prefix(cqes@, i + 1);
            }
            match self.handle_cqe(ops, cqe.user_data, cqe.res) {
                Ok(_) => {},
                Err(e) => {
                    proof {
                        assert(spec_hands_request(cqes@[i as int]));
                    }
                    return Err(e);
                },
            }
            proof {
                lemma_has_abort_step(cqes@, i as int);
            }
            i = i + 1;
        }
        proof {
            assert(cqes@.take(cqes@.len() as int) =~= cqes@);
        }
        Ok(i)
    }

    /// Says what the caller does next. When the queue is stopping, no
    /// command is in flight and no entry waits, the queue is down. Otherwise
    /// the waiting entries are handed out, oldest first, for the caller to
    /// move to its ring and wait on.
    pub fn next_submission(&mut self) -> (r: Result<Vec<UblkSqe>, UblkError>)
        ensures
            final(self).same_shape(old(self)),
            final(self).q_state == old(self).q_state,
            final(self).cmd_inflight == old(self).cmd_inflight,
            final(self).ios@ == old(self).ios@,
            final(self).pushed@ == old(self).pushed@,
            final(self).reaped@ == old(self).reaped@,
            final(self).handed@ == old(self).handed@ + spec_count_cmds(old(self).sq@),
            old(self).wf() ==> final(self).wf(),
            final(self).sq@.len() == 0,
            (r is Err) <==> (old(self).stopping() && old(self).cmd_inflight == 0
                && old(self).sq@.len() == 0),
            r is Err ==> r->Err_0 is QueueIsDown,
            r is Ok ==> r->Ok_0@ == old(self).sq@,
    {
        if self.queue_is_done() && self.sq.len() == 0 {
            return Err(UblkError::QueueIsDown("queue is done".to_string()));
        }
        let mut out: Vec<UblkSqe> = Vec::new();
        core::mem::swap(&mut self.sq, &mut out);
        proof {
            self.handed = Ghost(self.handed@ + spec_count_cmds(out@));
        }
        Ok(out)
    }

    /// One turn of the queue's loop: handles the completions of the last
    /// wait as `reap_events_uring` does, then says what to do next as
    /// `next_submission` does. Where no completion hands a request to the
    /// target, the turn fails only because the queue is down; it then leaves
    /// the queue stopping, with no command in flight and no entry waiting.
    /// Otherwise an error may also be the one that `queue_io` returned. The
    /// first turn, without completions, changes no slot and hands out the
    /// entries that wait.
    pub fn process_io<T: UblkQueueImpl>(&mut self, ops: &T, cqes: &Vec<UblkCqe>) -> (r: Result<
        Vec<UblkSqe>,
        UblkError,
    >)
        requires
            old(self).wf(),
            spec_count_cmd_cqes(cqes@) <= old(self).cmd_inflight,
            forall|i: int|
                0 <= i < cqes@.len() && !spec_is_target_io(#[trigger] cqes@[i].user_data)
                    ==> spec_user_data_to_tag(cqes@[i].user_data) < old(self).q_depth,
        ensures
            final(self).wf(),
            final(self).same_shape(old(self)),
            final(self).pushed@ >= old(self).pushed@,
            old(self).no_fetch_pending() ==> final(self).no_fetch_pending(),
            old(self).stopping() ==> final(self).stopping(),
            r is Ok ==> {
                &&& final(self).sq@.len() == 0
                &&& final(self).reaped@ == old(self).reaped@ + spec_count_cmd_cqes(cqes@)
                &&& old(self).sq@.is_prefix_of(r->Ok_0@)
                &&& !(final(self).stopping() && final(self).cmd_inflight == 0
                    && r->Ok_0@.len() == 0)
                &&& final(self).handed@ == old(self).handed@ + spec_count_cmds(r->Ok_0@)
            },
            spec_no_request(cqes@) && r is Err ==> {
                &&& r->Err_0 is QueueIsDown
                &&& final(self).stopping()
                &&& final(self).cmd_inflight == 0
                &&& final(self).sq@.len() == 0
                &&& final(self).handed@ == old(self).handed@
            },
            spec_no_request(cqes@) || r is Ok ==> {
                &&& final(self).reaped@ == old(self).reaped@ + spec_count_cmd_cqes(cqes@)
                &&& final(self).stopping() == (old(self).stopping() || spec_has_abort(cqes@))
                &&& final(self).cmd_inflight + spec_count_cmd_cqes(cqes@) == old(self).cmd_inflight + (final(self).pushed@ - old(self).pushed@)
            },
            cqes@.len() == 0 ==> {
                &&& (r is Err) <==> (old(self).stopping() && old(self).cmd_inflight == 0
                    && old(self).sq@.len() == 0)
                &&& r is Ok ==> r->Ok_0@ == old(self).sq@
                &&& final(self).ios@ == old(self).ios@
                &&& final(self).cmd_inflight == old(self).cmd_inflight
                &&& final(self).q_state == old(self).q_state
                &&& final(self).pushed@ == old(self).pushed@
                &&& final(self).reaped@ == old(self).reaped@
            },
    {
        match self.reap_events_uring(ops, cqes) {
            Ok(_) => {},
            Err(e) => {
                return Err(e);
            },
        }
        self.next_submission()
    }
}

/// The first `i + 1` completions hold an abort when the first `i` do or
/// when the next one is an abort.
proof fn lemma_has_abort_step(cqes: Seq<UblkCqe>, i: int)
    requires
        0 <= i < cqes.len(),
    ensures
        spec_has_abort(cqes.take(i + 1)) == (spec_has_abort(cqes.take(i)) || (!spec_is_target_io(
            cqes[i].user_data,
        ) && cqes[i].res == UBLK_IO_RES_ABORT)),
        spec_has_abort(cqes.take(0)) == false,
{
    let s0 = cqes.take(i);
    let s1 = cqes.take(i + 1);
    if spec_has_abort(s0) {
        let k = choose|k: int|
            0 <= k < s0.len() && !spec_is_target_io((#[trigger] s0[k]).user_data) && s0[k].res
                == UBLK_IO_RES_ABORT;
        assert(s1[k] == s0[k]);
    }
    if !spec_is_target_io(cqes[i].user_data) && cqes[i].res == UBLK_IO_RES_ABORT {
        assert(s1[i] == cqes[i]);
    }
    if spec_has_abort(s1) {
        let k = choose|k: int|
            0 <= k < s1.len() && !spec_is_target_io((#[trigger] s1[k]).user_data) && s1[k].res
                == UBLK_IO_RES_ABORT;
        if k < i {
            assert(s0[k] == s1[k]);
        } else {
            assert(s1[k] == cqes[i]);
        }
    }
}

/// The count over a prefix never exceeds the count over the whole.
proof fn lemma_count_cmd_cqes_prefix(cqes: Seq<UblkCqe>, n: int)
    requires
        0 <= n <= cqes.len(),
    ensures
        spec_count_cmd_cqes(cqes.take(n)) <= spec_count_cmd_cqes(cqes),
    decreases cqes.len() - n,
{
    if n == cqes.len() {
        assert(cqes.take(n) =~= cqes);
    } else {
        lemma_count_cmd_cqes_prefix(cqes, n + 1);
        assert(cqes.take(n + 1).drop_last() =~= cqes.take(n));
    }
}

/// Each slot of a well-formed queue rests in exactly one of four states:
/// waiting for its first fetch, in flight, completed and waiting for its
/// commit, or released for good.
pub proof fn lemma_slot_states(q: &UblkQueue, tag: int)
    requires
        q.wf(),
        0 <= tag < q.q_depth,
    ensures
        q.ios@[tag].flags == UBLK_IO_NEED_FETCH_RQ + UBLK_IO_FREE || q.ios@[tag].flags == 0
            || q.ios@[tag].flags == UBLK_IO_NEED_COMMIT_RQ_COMP + UBLK_IO_FREE
            || q.ios@[tag].flags == UBLK_IO_FREE,
{
    assert(slot_flags_valid(q.ios@[tag].flags));
}

/// The commands in flight are those issued and not yet completed, and the
/// issued ones are those handed out for the ring and those that still wait
/// among the entries.
pub proof fn lemma_inflight_accounting(q: &UblkQueue)
    requires
        q.wf(),
    ensures
        q.cmd_inflight == q.pushed@ - q.reaped@,
        q.pushed@ >= q.reaped@,
        q.pushed@ == q.handed@ + spec_count_cmds(q.sq@),
{
}

/// Once every slot has been armed, a slot never asks for a fetch again: the
/// only command that any slot can ask for is a commit, and it comes from a
/// slot that does not wait for a fetch. Every operation of the queue keeps
/// it so, so a stopping queue that was armed before it stopped issues no
/// fetch.
pub proof fn lemma_no_fetch_once_armed(q: &UblkQueue, tag: u16)
    requires
        q.wf(),
        q.no_fetch_pending(),
        tag < q.q_depth,
    ensures
        spec_next_cmd_op(q.ios@[tag as int].flags) != Some(UBLK_IO_FETCH_REQ),
        q.ios@[tag as int].flags & UBLK_IO_NEED_FETCH_RQ == 0,
        match spec_next_io_cmd(q.q_id, tag, q.ios@[tag as int]) {
            None => true,
            Some(c) => c.cmd_op == UBLK_IO_COMMIT_AND_FETCH_REQ,
        },
{
    assert(q.ios@[tag as int].flags & UBLK_IO_NEED_FETCH_RQ == 0);
}

} // verus!
