//! The device as a target sees it: the driver's record, the target's
//! geometry and the table of registered files.

use vstd::prelude::*;
use crate::ctrl::UblkCtrl;
use crate::error::UblkError;
use crate::uapi::{spec_zero_params, ublk_params, ublksrv_ctrl_dev_info};

verus! {

/// Greatest number of files that a device registers with each queue's ring.
pub const UBLK_MAX_FDS: usize = 32;

/// What a target negotiates for its device.
#[derive(Debug)]
pub struct UblkTgt {
    pub tgt_type: String,
    pub dev_size: u64,
    pub params: ublk_params,
}

/// The files registered with each queue's ring; the first is the device's
/// character device.
#[derive(Debug)]
pub struct UblkTgtData {
    pub fds: [i32; 32],
    pub nr_fds: i32,
}

/// One ublk device.
#[derive(Debug)]
pub struct UblkDev {
    pub dev_info: ublksrv_ctrl_dev_info,
    pub tgt: UblkTgt,
    pub tdata: UblkTgtData,
}

/// The hooks of a target that serve the whole device.
pub trait UblkTgtImpl {
    /// Sets the size and the parameters of the device, and may register
    /// further files. Returns the target's own data for the device record.
    fn init_tgt(&self, dev: &mut UblkDev) -> (r: Result<serde_json::Value, UblkError>);

    /// Releases what the target holds for the device.
    fn deinit_tgt(&self, dev: &UblkDev);

    /// The name of the kind of target.
    fn tgt_type(&self) -> &'static str;
}

impl Clone for UblkTgt {
    fn clone(&self) -> (r: Self)
        ensures
            r.tgt_type@ == self.tgt_type@,
            r.dev_size == self.dev_size,
            r.params == self.params,
    {
        UblkTgt {
            tgt_type: self.tgt_type.clone(),
            dev_size: self.dev_size,
            params: self.params,
        }
    }
}

impl Default for UblkTgt {
    fn default() -> (r: Self)
        ensures
            r.tgt_type@.len() == 0,
            r.dev_size == 0,
            r.params == spec_zero_params(),
    {
        UblkTgt { tgt_type: String::new(), dev_size: 0, params: ublk_params::default() }
    }
}

impl UblkTgtData {
    /// The table holds between one and all of its files.
    pub open spec fn wf(&self) -> bool {
        1 <= self.nr_fds <= UBLK_MAX_FDS
    }

    /// The files to register with a queue's ring, the character device
    /// first.
    pub fn registered_fds(&self) -> (r: Vec<i32>)
        requires
            0 <= self.nr_fds <= UBLK_MAX_FDS,
        ensures
            r@ == self.fds@.take(self.nr_fds as int),
    {
        let n: usize = self.nr_fds as usize;
        let mut out: Vec<i32> = Vec::new();
        let mut i: usize = 0;
        while i < n
            invariant
                i <= n,
                n <= 32,
                out@ == self.fds@.take(i as int),
            decreases n - i,
        {
            out.push(self.fds[i]);
            proof {
                assert(out@ =~= self.fds@.take(i + 1));
            }
            i = i + 1;
        }
        out
    }
}

impl UblkDev {
    /// The device before its target has set it up: the driver's record, the
    /// target's kind, no size and no parameters yet, and the character
    /// device, open as `cdev_fd`, as the only registered file.
    pub fn prepare(tgt_type: String, info: ublksrv_ctrl_dev_info, cdev_fd: i32) -> (dev: UblkDev)
        ensures
            dev.dev_info == info,
            dev.tgt.tgt_type == tgt_type,
            dev.tgt.dev_size == 0,
            dev.tgt.params == spec_zero_params(),
            dev.tdata.wf(),
            dev.tdata.nr_fds == 1,
            dev.tdata.fds@[0] == cdev_fd,
            forall|i: int| 1 <= i < UBLK_MAX_FDS ==> dev.tdata.fds@[i] == 0,
    {
        let mut fds: [i32; 32] = [0;32];
        fds[0] = cdev_fd;
        UblkDev {
            dev_info: info,
            tgt: UblkTgt { tgt_type, dev_size: 0, params: ublk_params::default() },
            tdata: UblkTgtData { fds, nr_fds: 1 },
        }
    }

    /// Takes up what the target's `init_tgt` made of the prepared device
    /// `dev` and what it returned. On success the device is the one that the
    /// target left, with the driver's record `info` whatever the target did
    /// to it, and the target's data goes into the device record of `ctrl`.
    /// On failure the target's error is returned and `ctrl` is unchanged.
    pub fn set_up(
        dev: UblkDev,
        info: ublksrv_ctrl_dev_info,
        ctrl: &mut UblkCtrl,
        res: Result<serde_json::Value, UblkError>,
    ) -> (r: Result<UblkDev, UblkError>)
        ensures
            match res {
                Ok(json) => {
                    &&& r == Ok::<UblkDev, UblkError>(UblkDev { dev_info: info, ..dev })
                    &&& final(ctrl).json.target_data == json
                    &&& final(ctrl).json.dev_info == old(ctrl).json.dev_info
                    &&& final(ctrl).json.target == old(ctrl).json.target
                    &&& final(ctrl).json.queues == old(ctrl).json.queues
                    &&& final(ctrl).dev_info == old(ctrl).dev_info
                    &&& final(ctrl).for_add == old(ctrl).for_add
                },
                Err(e) => r == Err::<UblkDev, UblkError>(e) && *final(ctrl) == *old(ctrl),
            },
    {
        match res {
            Ok(json) => {
                let mut dev = dev;
                ctrl.json.target_data = json;
                dev.dev_info = info;
                Ok(dev)
            },
            Err(e) => Err(e),
        }
    }

    /// Makes the device of `ctrl` and lets the target set it up: the target
    /// gets the device as `prepare` makes it from the target's kind, the
    /// driver's record that `ctrl` holds and `cdev_fd`, and what it leaves
    /// and returns is taken up as `set_up` says. Whether this succeeds is
    /// the target's to decide. A device that comes back has the driver's
    /// record that `ctrl` holds, and only the target's data has changed in
    /// `ctrl`; on failure `ctrl` is unchanged.
    pub fn new<T: UblkTgtImpl>(ops: &T, ctrl: &mut UblkCtrl, cdev_fd: i32) -> (r: Result<
        UblkDev,
        UblkError,
    >)
        ensures
            final(ctrl).dev_info == old(ctrl).dev_info,
            final(ctrl).for_add == old(ctrl).for_add,
            final(ctrl).json.queues == old(ctrl).json.queues,
            final(ctrl).json.dev_info == old(ctrl).json.dev_info,
            final(ctrl).json.target == old(ctrl).json.target,
            r is Ok ==> r->Ok_0.dev_info == old(ctrl).dev_info,
            r is Err ==> *final(ctrl) == *old(ctrl),
    {
        let info = ctrl.dev_info;
        let mut dev = UblkDev::prepare(ops.tgt_type().to_string(), info, cdev_fd);
        let res = ops.init_tgt(&mut dev);
        UblkDev::set_up(dev, info, ctrl, res)
    }
}

} // verus!
