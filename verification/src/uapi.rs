//! Constants and plain records of the ublk kernel interface.

use vstd::prelude::*;

verus! {

pub const UBLK_CMD_GET_QUEUE_AFFINITY: u32 = 0x01;
pub const UBLK_CMD_GET_DEV_INFO: u32 = 0x02;
pub const UBLK_CMD_ADD_DEV: u32 = 0x04;
pub const UBLK_CMD_DEL_DEV: u32 = 0x05;
pub const UBLK_CMD_START_DEV: u32 = 0x06;
pub const UBLK_CMD_STOP_DEV: u32 = 0x07;
pub const UBLK_CMD_SET_PARAMS: u32 = 0x08;
pub const UBLK_CMD_GET_PARAMS: u32 = 0x09;
pub const UBLK_CMD_START_USER_RECOVERY: u32 = 0x10;
pub const UBLK_CMD_END_USER_RECOVERY: u32 = 0x11;

pub const UBLK_IO_FETCH_REQ: u32 = 0x20;
pub const UBLK_IO_COMMIT_AND_FETCH_REQ: u32 = 0x21;

pub const UBLK_IO_RES_OK: i32 = 0;
pub const UBLK_IO_RES_ABORT: i32 = -19;

pub const UBLKSRV_CMD_BUF_OFFSET: u64 = 0;
pub const UBLKSRV_IO_BUF_OFFSET: u64 = 0x8000_0000;
pub const UBLK_MAX_QUEUE_DEPTH: u32 = 4096;

pub const UBLK_IO_BUF_BITS: u32 = 25;
pub const UBLK_IO_BUF_BITS_MASK: u32 = 0x01ff_ffff;
pub const UBLK_TAG_OFF: u32 = 25;
pub const UBLK_QID_OFF: u32 = 41;

pub const UBLK_F_USER_COPY: u64 = 0x80;
pub const UBLK_F_ZONED: u64 = 0x100;

pub const UBLK_S_DEV_DEAD: u16 = 0;
pub const UBLK_S_DEV_LIVE: u16 = 1;
pub const UBLK_S_DEV_QUIESCED: u16 = 2;

/// Error numbers that the engine tests results against.
pub const EAGAIN: i32 = 11;
pub const ENOENT: i32 = 2;
pub const EBUSY: i32 = 16;
pub const EEXIST: i32 = 17;

/// Size in bytes of one I/O descriptor in the shared command buffer.
pub const IO_DESC_SIZE: u32 = 24;
/// Size in bytes of the device record exchanged with the driver.
pub const DEV_INFO_SIZE: u32 = 64;
/// Size in bytes of the parameter record exchanged with the driver.
pub const PARAMS_SIZE: u32 = 112;

/// Device record, as the driver fills it.
#[derive(Debug, Clone, Copy, PartialEq, Eq, Structural)]
pub struct ublksrv_ctrl_dev_info {
    pub nr_hw_queues: u16,
    pub queue_depth: u16,
    pub state: u16,
    pub pad0: u16,
    pub max_io_buf_bytes: u32,
    pub dev_id: u32,
    pub ublksrv_pid: i32,
    pub pad1: u32,
    pub flags: u64,
    pub ublksrv_flags: u64,
    pub owner_uid: u32,
    pub owner_gid: u32,
    pub reserved1: u64,
    pub reserved2: u64,
}

impl Default for ublksrv_ctrl_dev_info {
    fn default() -> (r: Self)
        ensures
            r == (ublksrv_ctrl_dev_info {
                nr_hw_queues: 0,
                queue_depth: 0,
                state: 0,
                pad0: 0,
                max_io_buf_bytes: 0,
                dev_id: 0,
                ublksrv_pid: 0,
                pad1: 0,
                flags: 0,
                ublksrv_flags: 0,
                owner_uid: 0,
                owner_gid: 0,
                reserved1: 0,
                reserved2: 0,
            }),
    {
        ublksrv_ctrl_dev_info {
            nr_hw_queues: 0,
            queue_depth: 0,
            state: 0,
            pad0: 0,
            max_io_buf_bytes: 0,
            dev_id: 0,
            ublksrv_pid: 0,
            pad1: 0,
            flags: 0,
            ublksrv_flags: 0,
            owner_uid: 0,
            owner_gid: 0,
            reserved1: 0,
            reserved2: 0,
        }
    }
}

/// Basic geometry of the block device.
#[derive(Debug, Clone, Copy, PartialEq, Eq, Structural)]
pub struct ublk_param_basic {
    pub attrs: u32,
    pub logical_bs_shift: u8,
    pub physical_bs_shift: u8,
    pub io_opt_shift: u8,
    pub io_min_shift: u8,
    pub max_sectors: u32,
    pub chunk_sectors: u32,
    pub dev_sectors: u64,
    pub virt_boundary_mask: u64,
}

/// Discard limits of the block device.
#[derive(Debug, Clone, Copy, PartialEq, Eq, Structural)]
pub struct ublk_param_discard {
    pub discard_alignment: u32,
    pub discard_granularity: u32,
    pub max_discard_sectors: u32,
    pub max_write_zeroes_sectors: u32,
    pub max_discard_segments: u16,
    pub reserved0: u16,
}

/// Device numbers, as the driver reports them.
#[derive(Debug, Clone, Copy, PartialEq, Eq, Structural)]
pub struct ublk_param_devt {
    pub char_major: u32,
    pub char_minor: u32,
    pub disk_major: u32,
    pub disk_minor: u32,
}

/// Zone limits of a zoned block device.
#[derive(Debug, Clone, Copy, PartialEq, Eq, Structural)]
pub struct ublk_param_zoned {
    pub max_open_zones: u32,
    pub max_active_zones: u32,
    pub max_zone_append_sectors: u32,
}

/// Parameter record; `len` is stamped before it goes to the driver.
#[derive(Debug, Clone, Copy, PartialEq, Eq, Structural)]
pub struct ublk_params {
    pub len: u32,
    pub types: u32,
    pub basic: ublk_param_basic,
    pub discard: ublk_param_discard,
    pub devt: ublk_param_devt,
    pub zoned: ublk_param_zoned,
}

impl Default for ublk_params {
    fn default() -> (r: Self)
        ensures
            r == spec_zero_params(),
    {
        ublk_params {
            len: 0,
            types: 0,
            basic: ublk_param_basic {
                attrs: 0,
                logical_bs_shift: 0,
                physical_bs_shift: 0,
                io_opt_shift: 0,
                io_min_shift: 0,
                max_sectors: 0,
                chunk_sectors: 0,
                dev_sectors: 0,
                virt_boundary_mask: 0,
            },
            discard: ublk_param_discard {
                discard_alignment: 0,
                discard_granularity: 0,
                max_discard_sectors: 0,
                max_write_zeroes_sectors: 0,
                max_discard_segments: 0,
                reserved0: 0,
            },
            devt: ublk_param_devt { char_major: 0, char_minor: 0, disk_major: 0, disk_minor: 0 },
            zoned: ublk_param_zoned {
                max_open_zones: 0,
                max_active_zones: 0,
                max_zone_append_sectors: 0,
            },
        }
    }
}

/// The parameter record with every field zero.
pub open spec fn spec_zero_params() -> ublk_params {
    ublk_params {
        len: 0,
        types: 0,
        basic: ublk_param_basic {
            attrs: 0,
            logical_bs_shift: 0,
            physical_bs_shift: 0,
            io_opt_shift: 0,
            io_min_shift: 0,
            max_sectors: 0,
            chunk_sectors: 0,
            dev_sectors: 0,
            virt_boundary_mask: 0,
        },
        discard: ublk_param_discard {
            discard_alignment: 0,
            discard_granularity: 0,
            max_discard_sectors: 0,
            max_write_zeroes_sectors: 0,
            max_discard_segments: 0,
            reserved0: 0,
        },
        devt: ublk_param_devt { char_major: 0, char_minor: 0, disk_major: 0, disk_minor: 0 },
        zoned: ublk_param_zoned { max_open_zones: 0, max_active_zones: 0, max_zone_append_sectors: 0 },
    }
}

/// One I/O descriptor, as the driver writes it into the shared buffer.
#[derive(Debug, Clone, Copy, PartialEq, Eq, Structural)]
pub struct ublksrv_io_desc {
    pub op_flags: u32,
    pub nr_sectors: u32,
    pub start_sector: u64,
    pub addr: u64,
}

} // verus!
