//! The device record that is exported for `dump` and for recovery.

use vstd::prelude::*;
use vstd::string::StringExecFns;
use crate::affinity::{affinity_cpus, is_cpu_list, UblkQueueAffinity};
use crate::text::{decimal, join_decimal, spec_decimal, spec_join_decimal};
use crate::dev::{UblkDev, UblkTgt};
use crate::error::UblkError;
use crate::uapi::{ublksrv_ctrl_dev_info, EEXIST};

verus! {

/// `serde_json::Value`, the target's own data, carried through unread.
#[verifier::external_type_specification]
#[verifier::external_body]
pub struct ExJsonValue(serde_json::Value);

/// Makes a `serde_json::Value` that is an object without members. The value
/// is opaque here, so nothing is claimed of it.
#[verifier::external_body]
pub(crate) fn empty_json_object() -> serde_json::Value {
    serde_json::Value::Object(serde_json::Map::new())
}

/// One queue in the record: its thread and the CPUs it runs on.
#[derive(Debug)]
pub struct UblkQueueJson {
    pub qid: u32,
    pub tid: i32,
    pub affinity: Vec<usize>,
}

/// The record of one device.
#[derive(Debug)]
pub struct UblkJson {
    pub dev_info: ublksrv_ctrl_dev_info,
    pub target: UblkTgt,
    pub target_data: serde_json::Value,
    pub queues: Vec<UblkQueueJson>,
}

/// Index of the first queue of the record that is named `qid`.
pub open spec fn spec_is_first_queue(queues: Seq<UblkQueueJson>, qid: u32, i: int) -> bool {
    &&& 0 <= i < queues.len()
    &&& queues[i].qid == qid
    &&& forall|j: int| 0 <= j < i ==> (#[trigger] queues[j]).qid != qid
}

/// No queue of the record is named `qid`.
pub open spec fn spec_no_queue(queues: Seq<UblkQueueJson>, qid: u32) -> bool {
    forall|j: int| 0 <= j < queues.len() ==> (#[trigger] queues[j]).qid != qid
}

/// The entries that a record gets for the first `n` queues.
pub open spec fn spec_queues_built(
    queues: Seq<UblkQueueJson>,
    affi: Seq<UblkQueueAffinity>,
    tids: Seq<i32>,
    n: int,
) -> bool {
    &&& queues.len() == n
    &&& forall|q: int|
        0 <= q < n ==> {
            &&& (#[trigger] queues[q]).qid == q
            &&& queues[q].tid == tids[q]
            &&& is_cpu_list(affinity_cpus(affi[q]), queues[q].affinity@)
        }
}

/// The line that describes one queue: its number, its thread and its CPUs.
pub open spec fn spec_dump_queue(qid: u32, q: UblkQueueJson) -> Seq<char> {
    "\tqueue "@ + spec_decimal(qid as nat) + " tid: "@ + spec_decimal(q.tid as nat)
        + " affinity("@ + spec_join_decimal(q.affinity@) + ")"@
}

/// The line that describes the target: its size and its kind.
pub open spec fn spec_dump_target(dev_size: u64, tgt_type: Seq<char>) -> Seq<char> {
    "\ttarget {\"dev_size\":"@ + spec_decimal(dev_size as nat) + ",\"name\":\""@ + tgt_type
        + "\",\"type\":0}"@
}

impl UblkJson {
    /// The line that describes queue `qid`, if the record has the queue
    /// with a thread id that is not negative.
    pub fn dump_queue(&self, qid: u32) -> (r: Option<String>)
        ensures
            match r {
                Some(line) => exists|i: int|
                    spec_is_first_queue(self.queues@, qid, i) && self.queues@[i].tid >= 0
                        && line@ == spec_dump_queue(qid, self.queues@[i]),
                None => spec_no_queue(self.queues@, qid) || exists|i: int|
                    spec_is_first_queue(self.queues@, qid, i) && self.queues@[i].tid < 0,
            },
    {
        match self.find_queue(qid) {
            Some(i) => {
                let q = &self.queues[i];
                if q.tid < 0 {
                    return None;
                }
                let mut s = "\tqueue ".to_string();
                s.append(decimal(qid as u64).as_str());
                s.append(" tid: ");
                s.append(decimal(q.tid as u64).as_str());
                s.append(" affinity(");
                s.append(join_decimal(&q.affinity).as_str());
                s.append(")");
                Some(s)
            },
            None => None,
        }
    }

    /// The line that describes the target.
    pub fn dump_target(&self) -> (r: String)
        ensures
            r@ == spec_dump_target(self.target.dev_size, self.target.tgt_type@),
    {
        let mut s = "\ttarget {\"dev_size\":".to_string();
        s.append(decimal(self.target.dev_size).as_str());
        s.append(",\"name\":\"");
        s.append(self.target.tgt_type.as_str());
        s.append("\",\"type\":0}");
        s
    }

    /// Where the record has queue `qid`: the index of the first entry of
    /// that name, or nothing when no entry has it.
    pub fn find_queue(&self, qid: u32) -> (r: Option<usize>)
        ensures
            match r {
                Some(i) => spec_is_first_queue(self.queues@, qid, i as int),
                None => spec_no_queue(self.queues@, qid),
            },
    {
        let mut i: usize = 0;
        while i < self.queues.len()
            invariant
                i <= self.queues@.len(),
                forall|j: int| 0 <= j < i ==> (#[trigger] self.queues@[j]).qid != qid,
            decreases self.queues@.len() - i,
        {
            if self.queues[i].qid == qid {
                return Some(i);
            }
            i = i + 1;
        }
        None
    }

    /// The thread that serves queue `qid`, as the record has it. A queue
    /// that the record does not name, or whose thread id is negative, gives
    /// the error number for "exists".
    pub fn get_queue_tid(&self, qid: u32) -> (r: Result<i32, UblkError>)
        ensures
            match r {
                Ok(tid) => exists|i: int|
                    spec_is_first_queue(self.queues@, qid, i) && self.queues@[i].tid == tid && tid
                        >= 0,
                Err(e) => {
                    &&& e == UblkError::OtherError((-EEXIST) as i32)
                    &&& (spec_no_queue(self.queues@, qid) || exists|i: int|
                        spec_is_first_queue(self.queues@, qid, i) && self.queues@[i].tid < 0)
                },
            },
    {
        match self.find_queue(qid) {
            Some(i) => {
                let tid: i32 = self.queues[i].tid;
                if tid >= 0 {
                    Ok(tid)
                } else {
                    Err(UblkError::OtherError(-EEXIST))
                }
            },
            None => Err(UblkError::OtherError(-EEXIST)),
        }
    }

    /// Fills the record from the device, the affinity of each queue and the
    /// thread that serves it. The target's own data stays as it is.
    pub fn build(&mut self, dev: &UblkDev, affi: Vec<UblkQueueAffinity>, tids: Vec<i32>)
        requires
            affi@.len() >= dev.dev_info.nr_hw_queues,
            tids@.len() >= dev.dev_info.nr_hw_queues,
        ensures
            final(self).dev_info == dev.dev_info,
            final(self).target.tgt_type@ == dev.tgt.tgt_type@,
            final(self).target.dev_size == dev.tgt.dev_size,
            final(self).target.params == dev.tgt.params,
            final(self).target_data == old(self).target_data,
            spec_queues_built(final(self).queues@, affi@, tids@, dev.dev_info.nr_hw_queues as int),
    {
        let mut queues: Vec<UblkQueueJson> = Vec::new();
        let mut qid: u16 = 0;
        while qid < dev.dev_info.nr_hw_queues
            invariant
                qid <= dev.dev_info.nr_hw_queues,
                affi@.len() >= dev.dev_info.nr_hw_queues,
                tids@.len() >= dev.dev_info.nr_hw_queues,
                spec_queues_built(queues@, affi@, tids@, qid as int),
            decreases dev.dev_info.nr_hw_queues - qid,
        {
            let bits = affi[qid as usize].to_bits_vec();
            queues.push(UblkQueueJson { qid: qid as u32, tid: tids[qid as usize], affinity: bits });
            qid = qid + 1;
        }
        self.dev_info = dev.dev_info;
        self.target = dev.tgt.clone();
        self.queues = queues;
    }
}

} // verus!
