//! The control engine: the commands of the control device, their framing,
//! what a completion means, and the order of the steps that start, stop,
//! recover and delete a device.
//!
//! The engine owns no ring and no file. It says which command goes out; the
//! caller submits it, waits for its one completion and hands the result back.

use vstd::prelude::*;
use vstd::string::StringExecFns;
use crate::affinity::UblkQueueAffinity;
use crate::text::{decimal, hex, signed_decimal, spec_decimal, spec_hex, spec_signed_decimal};
use crate::dev::{UblkDev, UblkTgt};
use crate::error::UblkError;
use crate::json::{empty_json_object, spec_queues_built, UblkJson};
use crate::uapi::{
    spec_zero_params, ublk_params, ublksrv_ctrl_dev_info, DEV_INFO_SIZE, EBUSY, PARAMS_SIZE,
    UBLK_CMD_ADD_DEV, UBLK_CMD_DEL_DEV, UBLK_CMD_END_USER_RECOVERY, UBLK_CMD_GET_DEV_INFO,
    UBLK_CMD_GET_PARAMS, UBLK_CMD_GET_QUEUE_AFFINITY, UBLK_CMD_SET_PARAMS, UBLK_CMD_START_DEV,
    UBLK_CMD_START_USER_RECOVERY, UBLK_CMD_STOP_DEV, UBLK_S_DEV_DEAD, UBLK_S_DEV_LIVE,
    UBLK_S_DEV_QUIESCED,
};
use crate::wire::{
    push_le_bytes, push_zero_bytes, spec_le_bytes, spec_uring_cmd80, spec_zero_bytes, uring_cmd80,
};

verus! {

/// The command carries a value in `data[0]`.
pub const CTRL_CMD_HAS_DATA: u32 = 1;
/// The command carries the address and length of a buffer.
pub const CTRL_CMD_HAS_BUF: u32 = 2;

/// Milliseconds between two tries to start the recovery of a busy device.
pub const RECOVER_RETRY_MS: u32 = 100;
/// Milliseconds after which a busy device is given up.
pub const RECOVER_DEADLINE_MS: u32 = 30000;

/// One control command before it is framed.
#[derive(Debug, Clone, Copy)]
pub struct UblkCtrlCmdData {
    pub cmd_op: u32,
    pub flags: u32,
    pub data: [u64; 2],
    pub addr: u64,
    pub len: u32,
}

impl UblkCtrlCmdData {
    /// The fields of the command, `data[1]` being zero.
    pub open spec fn holds(&self, cmd_op: u32, flags: u32, data0: u64, addr: u64, len: u32) -> bool {
        &&& self.cmd_op == cmd_op
        &&& self.flags == flags
        &&& self.data@ == seq![data0, 0u64]
        &&& self.addr == addr
        &&& self.len == len
    }

    /// A command with these fields and zero in `data[1]`.
    pub fn new(cmd_op: u32, flags: u32, data0: u64, addr: u64, len: u32) -> (r: UblkCtrlCmdData)
        ensures
            r.holds(cmd_op, flags, data0, addr, len),
    {
        let r = UblkCtrlCmdData { cmd_op, flags, data: [data0, 0], addr, len };
        assert(r.data@ =~= seq![data0, 0u64]);
        r
    }
}

/// The 80 bytes of a control command for device `dev_id`: device, the queue
/// id 0xffff, and length, address and value where the flags announce them,
/// each least significant byte first; the rest is zero.
pub open spec fn spec_ctrl_cmd_bytes(dev_id: u32, data: UblkCtrlCmdData) -> Seq<u8> {
    let has_buf = data.flags & CTRL_CMD_HAS_BUF != 0;
    let has_data = data.flags & CTRL_CMD_HAS_DATA != 0;
    spec_le_bytes(dev_id as u64, 4) + spec_le_bytes(0xffff, 2) + spec_le_bytes(
        if has_buf {
            (data.len as u16) as u64
        } else {
            0
        },
        2,
    ) + spec_le_bytes(if has_buf {
        data.addr
    } else {
        0
    }, 8) + spec_le_bytes(if has_data {
        data.data@[0]
    } else {
        0
    }, 8) + spec_zero_bytes(56)
}

/// Frames a control command.
pub fn ublk_ctrl_cmd_bytes(dev_id: u32, data: &UblkCtrlCmdData) -> (r: Vec<u8>)
    ensures
        r@ == spec_ctrl_cmd_bytes(dev_id, *data),
        r@.len() == 80,
{
    let has_buf: bool = (data.flags & CTRL_CMD_HAS_BUF) != 0;
    let has_data: bool = (data.flags & CTRL_CMD_HAS_DATA) != 0;
    let len: u16 = if has_buf {
        #[verifier::truncate]
        (data.len as u16)
    } else {
        0
    };
    let addr: u64 = if has_buf {
        data.addr
    } else {
        0
    };
    let value: u64 = if has_data {
        data.data[0]
    } else {
        0
    };
    let mut buf: Vec<u8> = Vec::new();
    assert(buf@ =~= Seq::<u8>::empty());
    push_le_bytes(&mut buf, dev_id as u64, 4);
    push_le_bytes(&mut buf, 0xffff, 2);
    push_le_bytes(&mut buf, len as u64, 2);
    push_le_bytes(&mut buf, addr, 8);
    push_le_bytes(&mut buf, value, 8);
    push_zero_bytes(&mut buf, 56);
    assert(buf@ =~= spec_ctrl_cmd_bytes(dev_id, *data));
    buf
}

/// The ring entry that carries a control command to the control device
/// that is open as `fd`.
pub fn ublk_ctrl_prep_cmd(
    fd: i32,
    dev_id: u32,
    data: &UblkCtrlCmdData,
) -> (sqe: io_uring::squeue::Entry128)
    ensures
        sqe == spec_uring_cmd80(fd, data.cmd_op, spec_ctrl_cmd_bytes(dev_id, *data)),
{
    let payload = ublk_ctrl_cmd_bytes(dev_id, data);
    uring_cmd80(fd, data.cmd_op, &payload)
}

/// What the result of a control command's completion means: zero and "busy"
/// are handed on, anything else is an error that carries the result.
pub open spec fn spec_ctrl_cmd_result(res: i32) -> Result<i32, UblkError> {
    if res == 0 || res == -EBUSY {
        Ok(res)
    } else {
        Err(UblkError::UringIOError(res))
    }
}

/// Turns the result of a control command's completion into the outcome of
/// the command.
pub fn ublk_ctrl_cmd_result(res: i32) -> (r: Result<i32, UblkError>)
    ensures
        r == spec_ctrl_cmd_result(res),
{
    if res == 0 || res == -EBUSY {
        Ok(res)
    } else {
        Err(UblkError::UringIOError(res))
    }
}

/// The zeros that bring the decimal form of `n` to four digits.
pub open spec fn spec_pad4(n: nat) -> Seq<char> {
    if n < 10 {
        "000"@
    } else if n < 100 {
        "00"@
    } else if n < 1000 {
        "0"@
    } else {
        ""@
    }
}

/// The file of the record of device `dev_id` under `run_dir`: the device's
/// number in at least four decimal digits, with the ending `.json`.
pub open spec fn spec_run_path(run_dir: Seq<char>, dev_id: u32) -> Seq<char> {
    run_dir + "/"@ + spec_pad4(dev_id as nat) + spec_decimal(dev_id as nat) + ".json"@
}

/// The size of a block of two to the power `shift` bytes, as a 32-bit signed
/// number shows it: the greatest shift gives the least number.
pub open spec fn spec_block_size(shift: u8) -> Seq<char> {
    if shift == 31 {
        spec_signed_decimal(i32::MIN as int)
    } else {
        spec_decimal((1u64 << (shift as u64)) as nat)
    }
}

/// The description of a device: its number, its queues and their depth,
/// the block size and the capacity in sectors; then the greatest request,
/// the daemon, the flags in hexadecimal and the name of the state.
pub open spec fn spec_dump_info(
    info: ublksrv_ctrl_dev_info,
    p: ublk_params,
    state: Seq<char>,
) -> Seq<char> {
    "\ndev id "@ + spec_decimal(info.dev_id as nat) + ": nr_hw_queues "@ + spec_decimal(
        info.nr_hw_queues as nat,
    ) + " queue_depth "@ + spec_decimal(info.queue_depth as nat) + " block size "@ + spec_block_size(
        p.basic.logical_bs_shift,
    ) + " dev_capacity "@ + spec_decimal(p.basic.dev_sectors as nat) + "\n\tmax rq size "@
        + spec_decimal(info.max_io_buf_bytes as nat) + " daemon pid "@ + spec_signed_decimal(
        info.ublksrv_pid as int,
    ) + " flags 0x"@ + spec_hex(info.flags as nat) + " state "@ + state
}

/// One step of starting, stopping or deleting a device.
#[derive(Debug, Clone, Copy, PartialEq, Eq, Structural)]
pub enum UblkCtrlAction {
    /// Send these parameters to the driver.
    SetParams(ublk_params),
    /// Write the device record to its file.
    FlushJson,
    /// Start the device for the daemon with this process id.
    StartDev(i32),
    /// End the recovery for the daemon with this process id.
    EndUserRecover(i32),
    /// Remove the file of the device record.
    RemoveJson,
    /// Stop the device.
    StopDev,
    /// Delete the device.
    DelDev,
}

/// What to do after one try to start the recovery of a device.
#[derive(Debug)]
pub enum UblkRecoverStep {
    /// Sleep, then try again; `waited` is the time slept so far.
    Retry { sleep_ms: u32, waited: u32 },
    /// Sleep if `sleep_ms` is not zero, then return `res`.
    Return { sleep_ms: u32, res: Result<i32, UblkError> },
}

/// What follows one try whose outcome is `res`, `waited` milliseconds
/// having been slept before.
pub open spec fn spec_recover_step(waited: u32, res: Result<i32, UblkError>) -> UblkRecoverStep {
    if res != Ok::<i32, UblkError>((-EBUSY) as i32) {
        UblkRecoverStep::Return { sleep_ms: 0, res }
    } else if waited + RECOVER_RETRY_MS < RECOVER_DEADLINE_MS {
        UblkRecoverStep::Retry {
            sleep_ms: RECOVER_RETRY_MS,
            waited: (waited + RECOVER_RETRY_MS) as u32,
        }
    } else {
        UblkRecoverStep::Return { sleep_ms: RECOVER_RETRY_MS, res }
    }
}

/// The outcome of a whole run of tries.
pub struct RecoverRun {
    /// Outcome of the last try, if the responses did not run out.
    pub result: Option<Result<i32, UblkError>>,
    /// Number of commands submitted.
    pub tries: nat,
    /// Milliseconds slept.
    pub slept: nat,
}

/// Runs the tries against the results that the completions carry in turn,
/// `waited` milliseconds having been slept before: a busy device is tried
/// again after a sleep until the deadline is reached; any other result ends
/// the run at once.
pub open spec fn spec_recover_run(responses: Seq<i32>, waited: u32) -> RecoverRun
    decreases responses.len(),
{
    if responses.len() == 0 {
        RecoverRun { result: None, tries: 0, slept: 0 }
    } else {
        match spec_recover_step(waited, spec_ctrl_cmd_result(responses[0])) {
            UblkRecoverStep::Return { sleep_ms, res } => RecoverRun {
                result: Some(res),
                tries: 1,
                slept: sleep_ms as nat,
            },
            UblkRecoverStep::Retry { sleep_ms, waited: w } => {
                let rest = spec_recover_run(responses.skip(1), w);
                RecoverRun {
                    result: rest.result,
                    tries: rest.tries + 1,
                    slept: rest.slept + sleep_ms as nat,
                }
            },
        }
    }
}

/// `n` times "busy", then `last`.
pub open spec fn spec_busy_then(n: nat, last: i32) -> Seq<i32> {
    Seq::new(n, |i: int| (-EBUSY) as i32) + seq![last]
}

/// Any number of "busy" results that stays below the deadline, followed by a
/// success, ends as a single success does: with the result zero. It takes one
/// command and one sleep more for each "busy".
pub proof fn lemma_recover_after_busy(n: nat, waited: u32)
    requires
        waited + n * RECOVER_RETRY_MS < RECOVER_DEADLINE_MS,
    ensures
        spec_recover_run(spec_busy_then(n, 0), waited).result == spec_recover_run(
            seq![0i32],
            waited,
        ).result,
        spec_recover_run(spec_busy_then(n, 0), waited).result == Some(Ok::<i32, UblkError>(0i32)),
        spec_recover_run(spec_busy_then(n, 0), waited).tries == n + 1,
        spec_recover_run(spec_busy_then(n, 0), waited).slept == n * RECOVER_RETRY_MS,
    decreases n,
{
    if n == 0 {
        assert(spec_busy_then(0, 0) =~= seq![0i32]);
    } else {
        let s = spec_busy_then(n, 0);
        assert(s[0] == -EBUSY);
        assert(s.skip(1) =~= spec_busy_then((n - 1) as nat, 0));
        assert(waited + 100 + (n - 1) * 100 == waited + n * 100) by (nonlinear_arith);
        lemma_recover_after_busy((n - 1) as nat, (waited + 100) as u32);
        assert((n - 1) * 100 + 100 == n * 100) by (nonlinear_arith);
    }
}

/// The control side of one device.
#[derive(Debug)]
pub struct UblkCtrl {
    pub dev_info: ublksrv_ctrl_dev_info,
    /// The device record; until it is built it holds the target's data only.
    pub json: UblkJson,
    /// Whether this side added the device and deletes it in the end.
    pub for_add: bool,
}

impl UblkCtrl {
    /// The control side of device `id` (-1 lets the driver choose) with
    /// `nr_queues` queues of `depth` slots and buffers of `io_buf_bytes`
    /// bytes, for the daemon with process id `pid`.
    pub fn new(
        id: i32,
        nr_queues: u32,
        depth: u32,
        io_buf_bytes: u32,
        flags: u64,
        for_add: bool,
        pid: i32,
    ) -> (r: UblkCtrl)
        ensures
            r.for_add == for_add,
            r.dev_info == (ublksrv_ctrl_dev_info {
                nr_hw_queues: nr_queues as u16,
                queue_depth: depth as u16,
                state: 0,
                pad0: 0,
                max_io_buf_bytes: io_buf_bytes,
                dev_id: id as u32,
                ublksrv_pid: pid,
                pad1: 0,
                flags,
                ublksrv_flags: 0,
                owner_uid: 0,
                owner_gid: 0,
                reserved1: 0,
                reserved2: 0,
            }),
            r.json.queues@.len() == 0,
            r.json.target.tgt_type@.len() == 0,
            r.json.target.dev_size == 0,
            r.json.target.params == spec_zero_params(),
    {
        let info = ublksrv_ctrl_dev_info {
            nr_hw_queues: #[verifier::truncate]
            (nr_queues as u16),
            queue_depth: #[verifier::truncate]
            (depth as u16),
            state: 0,
            pad0: 0,
            max_io_buf_bytes: io_buf_bytes,
            dev_id: #[verifier::truncate]
            (id as u32),
            ublksrv_pid: pid,
            pad1: 0,
            flags,
            ublksrv_flags: 0,
            owner_uid: 0,
            owner_gid: 0,
            reserved1: 0,
            reserved2: 0,
        };
        let json = UblkJson {
            dev_info: ublksrv_ctrl_dev_info::default(),
            target: UblkTgt {
                tgt_type: String::new(),
                dev_size: 0,
                params: ublk_params::default(),
            },
            target_data: empty_json_object(),
            queues: Vec::new(),
        };
        UblkCtrl { dev_info: info, json, for_add }
    }

    /// The name of the device's state.
    pub open spec fn spec_dev_state_desc(&self) -> Seq<char> {
        if self.dev_info.state == UBLK_S_DEV_DEAD {
            "DEAD"@
        } else if self.dev_info.state == UBLK_S_DEV_LIVE {
            "LIVE"@
        } else if self.dev_info.state == UBLK_S_DEV_QUIESCED {
            "QUIESCED"@
        } else {
            "UNKNOWN"@
        }
    }

    /// The name of the device's state.
    pub fn dev_state_desc(&self) -> (r: String)
        ensures
            r@ == self.spec_dev_state_desc(),
    {
        if self.dev_info.state == UBLK_S_DEV_DEAD {
            "DEAD".to_string()
        } else if self.dev_info.state == UBLK_S_DEV_LIVE {
            "LIVE".to_string()
        } else if self.dev_info.state == UBLK_S_DEV_QUIESCED {
            "QUIESCED".to_string()
        } else {
            "UNKNOWN".to_string()
        }
    }

    /// The file that holds the record of this device, under `run_dir`.
    pub fn run_path(&self, run_dir: &str) -> (r: String)
        ensures
            r@ == spec_run_path(run_dir@, self.dev_info.dev_id),
    {
        let id: u32 = self.dev_info.dev_id;
        let mut s = run_dir.to_string();
        s.append("/");
        if id < 10 {
            s.append("000");
        } else if id < 100 {
            s.append("00");
        } else if id < 1000 {
            s.append("0");
        } else {
            s.append("");
        }
        let digits = decimal(id as u64);
        s.append(digits.as_str());
        s.append(".json");
        s
    }

    /// The two lines that describe the device and its state, given the
    /// parameters that the driver reported.
    pub fn dump_info(&self, p: &ublk_params) -> (r: String)
        requires
            p.basic.logical_bs_shift < 32,
        ensures
            r@ == spec_dump_info(self.dev_info, *p, self.spec_dev_state_desc()),
    {
        let info = &self.dev_info;
        let block: String = if p.basic.logical_bs_shift == 31 {
            signed_decimal(i32::MIN)
        } else {
            decimal(1u64 << (p.basic.logical_bs_shift as u64))
        };
        let mut s = "\ndev id ".to_string();
        s.append(decimal(info.dev_id as u64).as_str());
        s.append(": nr_hw_queues ");
        s.append(decimal(info.nr_hw_queues as u64).as_str());
        s.append(" queue_depth ");
        s.append(decimal(info.queue_depth as u64).as_str());
        s.append(" block size ");
        s.append(block.as_str());
        s.append(" dev_capacity ");
        s.append(decimal(p.basic.dev_sectors).as_str());
        s.append("\n\tmax rq size ");
        s.append(decimal(info.max_io_buf_bytes as u64).as_str());
        s.append(" daemon pid ");
        s.append(signed_decimal(info.ublksrv_pid).as_str());
        s.append(" flags 0x");
        s.append(hex(info.flags).as_str());
        s.append(" state ");
        s.append(self.dev_state_desc().as_str());
        s
    }

    /// The thread that serves queue `qid`, as the device record has it.
    pub fn get_queue_tid(&self, qid: u32) -> (r: Result<i32, UblkError>)
        ensures
            r is Ok <==> exists|i: int|
                crate::json::spec_is_first_queue(self.json.queues@, qid, i)
                    && self.json.queues@[i].tid >= 0,
            r is Ok ==> exists|i: int|
                crate::json::spec_is_first_queue(self.json.queues@, qid, i)
                    && self.json.queues@[i].tid == r->Ok_0,
            r is Err ==> r->Err_0 == UblkError::OtherError((-crate::uapi::EEXIST) as i32),
    {
        let r = self.json.get_queue_tid(qid);
        proof {
            if r is Err {
                assert forall|i: int|
                    crate::json::spec_is_first_queue(self.json.queues@, qid, i)
                        implies self.json.queues@[i].tid < 0 by {
                    if crate::json::spec_no_queue(self.json.queues@, qid) {
                        assert(self.json.queues@[i].qid != qid);
                    } else {
                        let k = choose|k: int|
                            crate::json::spec_is_first_queue(self.json.queues@, qid, k)
                                && self.json.queues@[k].tid < 0;
                        if k < i {
                            assert(self.json.queues@[k].qid != qid);
                        } else if i < k {
                            assert(self.json.queues@[i].qid != qid);
                        }
                    }
                }
            }
        }
        r
    }

    /// The command that adds the device; `addr` is where the device record
    /// lies for the driver.
    pub fn add(&self, addr: u64) -> (r: UblkCtrlCmdData)
        ensures
            r.holds(UBLK_CMD_ADD_DEV, CTRL_CMD_HAS_BUF, 0, addr, DEV_INFO_SIZE),
    {
        UblkCtrlCmdData::new(UBLK_CMD_ADD_DEV, CTRL_CMD_HAS_BUF, 0, addr, DEV_INFO_SIZE)
    }

    /// The command that deletes the device.
    pub fn del(&self) -> (r: UblkCtrlCmdData)
        ensures
            r.holds(UBLK_CMD_DEL_DEV, 0, 0, 0, 0),
    {
        UblkCtrlCmdData::new(UBLK_CMD_DEL_DEV, 0, 0, 0, 0)
    }

    /// The command that the control side sends when it is dropped: it
    /// deletes the device that it added, and sends nothing for a device that
    /// it did not add.
    pub fn del_on_drop(&self) -> (r: Option<UblkCtrlCmdData>)
        ensures
            r is Some <==> self.for_add,
            r is Some ==> r->Some_0.holds(UBLK_CMD_DEL_DEV, 0, 0, 0, 0),
    {
        if self.for_add {
            Some(self.del())
        } else {
            None
        }
    }

    /// The steps that remove a device: delete it, then remove its record if
    /// there is one.
    pub fn del_dev(&self, json_exists: bool) -> (r: Vec<UblkCtrlAction>)
        ensures
            r@ == if json_exists {
                seq![UblkCtrlAction::DelDev, UblkCtrlAction::RemoveJson]
            } else {
                seq![UblkCtrlAction::DelDev]
            },
    {
        let mut plan: Vec<UblkCtrlAction> = Vec::new();
        plan.push(UblkCtrlAction::DelDev);
        if json_exists {
            plan.push(UblkCtrlAction::RemoveJson);
        }
        assert(plan@ =~= if json_exists {
            seq![UblkCtrlAction::DelDev, UblkCtrlAction::RemoveJson]
        } else {
            seq![UblkCtrlAction::DelDev]
        });
        plan
    }

    /// The command that asks the driver for the device record; the driver
    /// writes it to `addr`.
    pub fn get_info(&self, addr: u64) -> (r: UblkCtrlCmdData)
        ensures
            r.holds(UBLK_CMD_GET_DEV_INFO, CTRL_CMD_HAS_BUF, 0, addr, DEV_INFO_SIZE),
    {
        UblkCtrlCmdData::new(UBLK_CMD_GET_DEV_INFO, CTRL_CMD_HAS_BUF, 0, addr, DEV_INFO_SIZE)
    }

    /// The command that starts the device for the daemon `pid`.
    pub fn start(&self, pid: i32) -> (r: UblkCtrlCmdData)
        ensures
            r.holds(UBLK_CMD_START_DEV, CTRL_CMD_HAS_DATA, pid as u64, 0, 0),
    {
        let value: u64 = #[verifier::truncate]
        (pid as u64);
        UblkCtrlCmdData::new(UBLK_CMD_START_DEV, CTRL_CMD_HAS_DATA, value, 0, 0)
    }

    /// The command that stops the device.
    pub fn stop(&self) -> (r: UblkCtrlCmdData)
        ensures
            r.holds(UBLK_CMD_STOP_DEV, 0, 0, 0, 0),
    {
        UblkCtrlCmdData::new(UBLK_CMD_STOP_DEV, 0, 0, 0, 0)
    }

    /// Stamps the length into `params` and gives the command that asks the
    /// driver for the parameters; the driver writes them to `addr`.
    pub fn get_params(&self, params: &mut ublk_params, addr: u64) -> (r: UblkCtrlCmdData)
        ensures
            *final(params) == (ublk_params { len: PARAMS_SIZE, ..*old(params) }),
            r.holds(UBLK_CMD_GET_PARAMS, CTRL_CMD_HAS_BUF, 0, addr, PARAMS_SIZE),
    {
        params.len = PARAMS_SIZE;
        UblkCtrlCmdData::new(UBLK_CMD_GET_PARAMS, CTRL_CMD_HAS_BUF, 0, addr, PARAMS_SIZE)
    }

    /// Gives a copy of `params` with the length stamped, and the command
    /// that sends it to the driver from `addr`.
    pub fn set_params(&self, params: &ublk_params, addr: u64) -> (r: (ublk_params, UblkCtrlCmdData))
        ensures
            r.0 == (ublk_params { len: PARAMS_SIZE, ..*params }),
            r.1.holds(UBLK_CMD_SET_PARAMS, CTRL_CMD_HAS_BUF, 0, addr, PARAMS_SIZE),
    {
        let mut p = *params;
        p.len = PARAMS_SIZE;
        (p, UblkCtrlCmdData::new(UBLK_CMD_SET_PARAMS, CTRL_CMD_HAS_BUF, 0, addr, PARAMS_SIZE))
    }

    /// The command that asks the driver for the CPUs of queue `q`; the
    /// driver writes the mask of `bm`'s length to `addr`.
    pub fn get_queue_affinity(&self, q: u32, bm: &UblkQueueAffinity, addr: u64) -> (r:
        UblkCtrlCmdData)
        ensures
            r.holds(
                UBLK_CMD_GET_QUEUE_AFFINITY,
                CTRL_CMD_HAS_BUF | CTRL_CMD_HAS_DATA,
                q as u64,
                addr,
                128,
            ),
    {
        UblkCtrlCmdData::new(
            UBLK_CMD_GET_QUEUE_AFFINITY,
            CTRL_CMD_HAS_BUF | CTRL_CMD_HAS_DATA,
            q as u64,
            addr,
            bm.buf_len() as u32,
        )
    }

    /// The command that starts the recovery of the device.
    pub fn __start_user_recover(&self) -> (r: UblkCtrlCmdData)
        ensures
            r.holds(UBLK_CMD_START_USER_RECOVERY, 0, 0, 0, 0),
    {
        UblkCtrlCmdData::new(UBLK_CMD_START_USER_RECOVERY, 0, 0, 0, 0)
    }

    /// What follows one try to start the recovery, `waited` milliseconds
    /// having been slept in earlier tries. A busy device costs one sleep and
    /// is tried again unless the deadline is reached with it; every other
    /// outcome is returned at once.
    pub fn start_user_recover(&self, waited: u32, res: Result<i32, UblkError>) -> (r:
        UblkRecoverStep)
        requires
            waited + RECOVER_RETRY_MS <= u32::MAX,
        ensures
            r == spec_recover_step(waited, res),
    {
        let busy: bool = match &res {
            Ok(r) => *r == -EBUSY,
            Err(_) => false,
        };
        if busy {
            let count: u32 = waited + RECOVER_RETRY_MS;
            if count < RECOVER_DEADLINE_MS {
                return UblkRecoverStep::Retry { sleep_ms: RECOVER_RETRY_MS, waited: count };
            }
            return UblkRecoverStep::Return { sleep_ms: RECOVER_RETRY_MS, res };
        }
        UblkRecoverStep::Return { sleep_ms: 0, res }
    }

    /// The command that ends the recovery for the new daemon `pid`.
    pub fn end_user_recover(&self, pid: i32) -> (r: UblkCtrlCmdData)
        ensures
            r.holds(UBLK_CMD_END_USER_RECOVERY, CTRL_CMD_HAS_DATA, pid as u64, 0, 0),
    {
        let value: u64 = #[verifier::truncate]
        (pid as u64);
        UblkCtrlCmdData::new(UBLK_CMD_END_USER_RECOVERY, CTRL_CMD_HAS_DATA, value, 0, 0)
    }

    /// The steps that start the device, by the state that the driver last
    /// reported. A quiesced device is recovering and has its parameters: its
    /// recovery is ended and nothing else. Any other device gets the
    /// target's parameters, then its record is written, then it is started.
    pub fn start_dev(&self, dev: &UblkDev, pid: i32) -> (r: Vec<UblkCtrlAction>)
        ensures
            r@ == if self.dev_info.state != UBLK_S_DEV_QUIESCED {
                seq![
                    UblkCtrlAction::SetParams(ublk_params { len: PARAMS_SIZE, ..dev.tgt.params }),
                    UblkCtrlAction::FlushJson,
                    UblkCtrlAction::StartDev(pid),
                ]
            } else {
                seq![UblkCtrlAction::EndUserRecover(pid)]
            },
    {
        let mut plan: Vec<UblkCtrlAction> = Vec::new();
        if self.dev_info.state != UBLK_S_DEV_QUIESCED {
            let mut p = dev.tgt.params;
            p.len = PARAMS_SIZE;
            plan.push(UblkCtrlAction::SetParams(p));
            plan.push(UblkCtrlAction::FlushJson);
            plan.push(UblkCtrlAction::StartDev(pid));
            assert(plan@ =~= seq![
                UblkCtrlAction::SetParams(ublk_params { len: PARAMS_SIZE, ..dev.tgt.params }),
                UblkCtrlAction::FlushJson,
                UblkCtrlAction::StartDev(pid),
            ]);
        } else {
            plan.push(UblkCtrlAction::EndUserRecover(pid));
            assert(plan@ =~= seq![UblkCtrlAction::EndUserRecover(pid)]);
        }
        plan
    }

    /// The steps that stop the device: the record is removed first if this
    /// side added the device and the record exists; then the device is
    /// stopped.
    pub fn stop_dev(&self, _dev: &UblkDev, json_exists: bool) -> (r: Vec<UblkCtrlAction>)
        ensures
            r@ == if self.for_add && json_exists {
                seq![UblkCtrlAction::RemoveJson, UblkCtrlAction::StopDev]
            } else {
                seq![UblkCtrlAction::StopDev]
            },
    {
        let mut plan: Vec<UblkCtrlAction> = Vec::new();
        if self.for_add && json_exists {
            plan.push(UblkCtrlAction::RemoveJson);
        }
        plan.push(UblkCtrlAction::StopDev);
        assert(plan@ =~= if self.for_add && json_exists {
            seq![UblkCtrlAction::RemoveJson, UblkCtrlAction::StopDev]
        } else {
            seq![UblkCtrlAction::StopDev]
        });
        plan
    }

    /// Builds the device record once every queue has a thread: the device,
    /// the target, and for each queue its thread and its CPUs in rising
    /// order. The target's own data stays in the record.
    pub fn build_json(&mut self, dev: &UblkDev, affi: Vec<UblkQueueAffinity>, tids: Vec<i32>)
        requires
            affi@.len() >= dev.dev_info.nr_hw_queues,
            tids@.len() >= dev.dev_info.nr_hw_queues,
        ensures
            final(self).dev_info == old(self).dev_info,
            final(self).for_add == old(self).for_add,
            final(self).json.dev_info == dev.dev_info,
            final(self).json.target.tgt_type@ == dev.tgt.tgt_type@,
            final(self).json.target.dev_size == dev.tgt.dev_size,
            final(self).json.target.params == dev.tgt.params,
            final(self).json.target_data == old(self).json.target_data,
            spec_queues_built(
                final(self).json.queues@,
                affi@,
                tids@,
                dev.dev_info.nr_hw_queues as int,
            ),
    {
        self.json.build(dev, affi, tids);
    }
}

} // verus!
