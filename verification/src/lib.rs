//! Userspace side of ublk block devices: the control commands that add,
//! start, stop, recover and delete a device, and the engine that serves one
//! queue of it.
//!
//! The library decides and frames; it owns no ring and no file. A caller
//! submits what the library hands out and feeds back what completed.

#![allow(dead_code)]
#![allow(non_snake_case, non_camel_case_types)]

pub mod uapi;
pub mod codec;
pub mod error;
pub mod wire;
pub mod text;
pub mod affinity;
pub mod dev;
pub mod queue;
pub mod json;
pub mod ctrl;

pub use crate::affinity::UblkQueueAffinity;
pub use crate::codec::{
    build_user_data, is_target_io, round_up, ublk_user_copy_pos, user_data_to_op,
    user_data_to_tag, user_data_to_tgt_data,
};
pub use crate::error::UblkError;
pub use crate::ctrl::{
    ublk_ctrl_cmd_bytes, ublk_ctrl_cmd_result, ublk_ctrl_prep_cmd, UblkCtrl, UblkCtrlAction,
    UblkCtrlCmdData, UblkRecoverStep,
};
pub use crate::dev::{UblkDev, UblkTgt, UblkTgtData, UblkTgtImpl};
pub use crate::json::{UblkJson, UblkQueueJson};
pub use crate::queue::{
    UblkCqe, UblkCqeAction, UblkIO, UblkIoCmd, UblkQueue, UblkQueueImpl, UblkSqe,
};
