use libublk::text::{decimal, hex, join_decimal, signed_decimal};
use libublk::uapi::{
    ublk_params, ublksrv_ctrl_dev_info, PARAMS_SIZE, UBLK_CMD_ADD_DEV, UBLK_CMD_DEL_DEV,
    UBLK_CMD_END_USER_RECOVERY, UBLK_CMD_GET_DEV_INFO, UBLK_CMD_GET_PARAMS,
    UBLK_CMD_GET_QUEUE_AFFINITY, UBLK_CMD_SET_PARAMS, UBLK_CMD_START_DEV,
    UBLK_CMD_START_USER_RECOVERY, UBLK_CMD_STOP_DEV, UBLK_S_DEV_LIVE, UBLK_S_DEV_QUIESCED,
};
use libublk::{
    ublk_ctrl_cmd_bytes, ublk_ctrl_cmd_result, ublk_ctrl_prep_cmd, UblkCtrl, UblkCtrlAction,
    UblkCtrlCmdData, UblkDev, UblkError, UblkQueueAffinity, UblkRecoverStep, UblkTgtImpl,
};

const EBUSY: i32 = 16;

fn ctrl(for_add: bool) -> UblkCtrl {
    UblkCtrl::new(5, 2, 64, 512 * 1024, 0x80, for_add, 4242)
}

fn mask(cpus: &[usize]) -> Vec<u8> {
    let mut m = vec![0u8; 128];
    for &c in cpus {
        m[c / 8] |= 1 << (c % 8);
    }
    m
}

struct NullTgt;

impl UblkTgtImpl for NullTgt {
    fn init_tgt(&self, dev: &mut UblkDev) -> Result<serde_json::Value, UblkError> {
        dev.tgt.dev_size = 250u64 << 30;
        dev.tgt.params.basic.logical_bs_shift = 9;
        dev.tgt.params.basic.dev_sectors = dev.tgt.dev_size >> 9;
        Ok(serde_json::Value::String("null-data".to_string()))
    }
    fn deinit_tgt(&self, _dev: &UblkDev) {}
    fn tgt_type(&self) -> &'static str {
        "null"
    }
}

struct BrokenTgt;

impl UblkTgtImpl for BrokenTgt {
    fn init_tgt(&self, _dev: &mut UblkDev) -> Result<serde_json::Value, UblkError> {
        Err(UblkError::OtherError(-2))
    }
    fn deinit_tgt(&self, _dev: &UblkDev) {}
    fn tgt_type(&self) -> &'static str {
        "broken"
    }
}

#[test]
fn new_ctrl_holds_the_device_record() {
    let c = UblkCtrl::new(-1, 2, 64, 4096, 0x80, true, 99);
    assert_eq!(
        c.dev_info,
        ublksrv_ctrl_dev_info {
            nr_hw_queues: 2,
            queue_depth: 64,
            max_io_buf_bytes: 4096,
            dev_id: u32::MAX,
            ublksrv_pid: 99,
            flags: 0x80,
            ..Default::default()
        }
    );
    assert!(c.for_add);
    assert!(c.json.queues.is_empty());
    assert_eq!(c.json.target_data, serde_json::Value::Object(serde_json::Map::new()));
}

#[test]
fn state_names() {
    let mut c = ctrl(false);
    assert_eq!(c.dev_state_desc(), "DEAD");
    c.dev_info.state = 1;
    assert_eq!(c.dev_state_desc(), "LIVE");
    c.dev_info.state = 2;
    assert_eq!(c.dev_state_desc(), "QUIESCED");
    c.dev_info.state = 3;
    assert_eq!(c.dev_state_desc(), "UNKNOWN");
}

fn fields(d: &UblkCtrlCmdData) -> (u32, u32, [u64; 2], u64, u32) {
    (d.cmd_op, d.flags, d.data, d.addr, d.len)
}

#[test]
fn control_commands_are_exact() {
    let c = ctrl(true);
    assert_eq!(fields(&c.add(0x1000)), (UBLK_CMD_ADD_DEV, 2, [0, 0], 0x1000, 64));
    assert_eq!(fields(&c.del()), (UBLK_CMD_DEL_DEV, 0, [0, 0], 0, 0));
    assert_eq!(fields(&c.get_info(0x2000)), (UBLK_CMD_GET_DEV_INFO, 2, [0, 0], 0x2000, 64));
    assert_eq!(fields(&c.start(77)), (UBLK_CMD_START_DEV, 1, [77, 0], 0, 0));
    assert_eq!(fields(&c.stop()), (UBLK_CMD_STOP_DEV, 0, [0, 0], 0, 0));
    assert_eq!(
        fields(&c.end_user_recover(78)),
        (UBLK_CMD_END_USER_RECOVERY, 1, [78, 0], 0, 0)
    );
    assert_eq!(
        fields(&c.__start_user_recover()),
        (UBLK_CMD_START_USER_RECOVERY, 0, [0, 0], 0, 0)
    );
    let bm = UblkQueueAffinity::new();
    assert_eq!(bm.buf_len(), 128);
    assert_eq!(
        fields(&c.get_queue_affinity(1, &bm, 0x3000)),
        (UBLK_CMD_GET_QUEUE_AFFINITY, 3, [1, 0], 0x3000, 128)
    );

    let mut p = ublk_params::default();
    p.basic.dev_sectors = 9;
    let cmd = c.get_params(&mut p, 0x4000);
    assert_eq!(p.len, PARAMS_SIZE);
    assert_eq!(p.basic.dev_sectors, 9);
    assert_eq!(fields(&cmd), (UBLK_CMD_GET_PARAMS, 2, [0, 0], 0x4000, 112));

    let q = ublk_params::default();
    let (stamped, cmd) = c.set_params(&q, 0x5000);
    assert_eq!(stamped, ublk_params { len: 112, ..q });
    assert_eq!(fields(&cmd), (UBLK_CMD_SET_PARAMS, 2, [0, 0], 0x5000, 112));
}

#[test]
fn control_payload_is_framed_exactly() {
    let d = UblkCtrlCmdData::new(UBLK_CMD_GET_QUEUE_AFFINITY, 3, 0x0a0b, 0x1122_3344_5566_7788, 128);
    let b = ublk_ctrl_cmd_bytes(0x0102_0304, &d);
    assert_eq!(b.len(), 80);
    let mut want = vec![0x04, 0x03, 0x02, 0x01, 0xff, 0xff, 0x80, 0x00];
    want.extend_from_slice(&[0x88, 0x77, 0x66, 0x55, 0x44, 0x33, 0x22, 0x11]);
    want.extend_from_slice(&[0x0b, 0x0a, 0, 0, 0, 0, 0, 0]);
    want.extend_from_slice(&[0u8; 56]);
    assert_eq!(b, want);

    // without the flags neither buffer nor value is sent
    let d = UblkCtrlCmdData::new(UBLK_CMD_DEL_DEV, 0, 0x0a0b, 0x1122, 128);
    let b = ublk_ctrl_cmd_bytes(7, &d);
    let mut want = vec![7, 0, 0, 0, 0xff, 0xff];
    want.extend_from_slice(&[0u8; 74]);
    assert_eq!(b, want);
}

#[test]
fn control_entry_is_built() {
    let c = ctrl(true);
    let e = ublk_ctrl_prep_cmd(3, c.dev_info.dev_id, &c.start(1));
    let f = ublk_ctrl_prep_cmd(3, c.dev_info.dev_id, &c.start(2));
    assert!(format!("{:?}", e).contains("op_code: 46"));
    assert!(format!("{:?}", f).contains("op_code: 46"));
}

#[test]
fn completion_results() {
    assert!(matches!(ublk_ctrl_cmd_result(0), Ok(0)));
    assert!(matches!(ublk_ctrl_cmd_result(-EBUSY), Ok(-16)));
    assert!(matches!(ublk_ctrl_cmd_result(-19), Err(UblkError::UringIOError(-19))));
    assert!(matches!(ublk_ctrl_cmd_result(1), Err(UblkError::UringIOError(1))));
}

#[test]
fn start_dev_of_a_quiesced_device_only_ends_recovery() {
    let mut c = ctrl(true);
    let dev = UblkDev::new(&NullTgt, &mut c, 3).unwrap();
    c.dev_info.state = UBLK_S_DEV_QUIESCED;
    assert_eq!(c.start_dev(&dev, 4242), vec![UblkCtrlAction::EndUserRecover(4242)]);
}

#[test]
fn start_dev_of_a_fresh_device_sets_params_first() {
    let mut c = ctrl(true);
    let dev = UblkDev::new(&NullTgt, &mut c, 3).unwrap();
    let plan = c.start_dev(&dev, 4242);
    assert_eq!(
        plan,
        vec![
            UblkCtrlAction::SetParams(ublk_params { len: 112, ..dev.tgt.params }),
            UblkCtrlAction::FlushJson,
            UblkCtrlAction::StartDev(4242),
        ]
    );
    c.dev_info.state = UBLK_S_DEV_LIVE;
    assert_eq!(c.start_dev(&dev, 1).len(), 3);
}

#[test]
fn stop_and_delete_plans() {
    let mut c = ctrl(true);
    let dev = UblkDev::new(&NullTgt, &mut c, 3).unwrap();
    assert_eq!(c.stop_dev(&dev, true), vec![UblkCtrlAction::RemoveJson, UblkCtrlAction::StopDev]);
    assert_eq!(c.stop_dev(&dev, false), vec![UblkCtrlAction::StopDev]);
    assert_eq!(c.del_dev(true), vec![UblkCtrlAction::DelDev, UblkCtrlAction::RemoveJson]);
    assert_eq!(c.del_dev(false), vec![UblkCtrlAction::DelDev]);
    let mut d = ctrl(false);
    let dev = UblkDev::new(&NullTgt, &mut d, 3).unwrap();
    assert_eq!(d.stop_dev(&dev, true), vec![UblkCtrlAction::StopDev]);
}

fn run_recovery(c: &UblkCtrl, responses: &[i32]) -> (Result<i32, UblkError>, usize, u64) {
    let mut waited = 0u32;
    let mut slept = 0u64;
    let mut tries = 0usize;
    loop {
        let res = ublk_ctrl_cmd_result(responses[tries]);
        tries += 1;
        match c.start_user_recover(waited, res) {
            UblkRecoverStep::Retry { sleep_ms, waited: w } => {
                slept += sleep_ms as u64;
                waited = w;
            }
            UblkRecoverStep::Return { sleep_ms, res } => {
                slept += sleep_ms as u64;
                return (res, tries, slept);
            }
        }
    }
}

#[test]
fn busy_storm_ends_in_success() {
    let c = ctrl(false);
    let mut responses = vec![-EBUSY; 10];
    responses.push(0);
    let (res, tries, slept) = run_recovery(&c, &responses);
    assert!(matches!(res, Ok(0)));
    assert_eq!(tries, 11);
    assert_eq!(slept, 1000);
    assert!(slept >= 1000 && slept < 2000);
}

#[test]
fn recovery_is_the_same_after_any_number_of_busy() {
    let c = ctrl(false);
    let (single, tries, slept) = run_recovery(&c, &[0]);
    assert!(matches!(single, Ok(0)));
    assert_eq!((tries, slept), (1, 0));
    for n in [1usize, 2, 50, 298] {
        let mut responses = vec![-EBUSY; n];
        responses.push(0);
        let (res, tries, slept) = run_recovery(&c, &responses);
        assert!(matches!(res, Ok(0)));
        assert_eq!(tries, n + 1);
        assert_eq!(slept, 100 * n as u64);
    }
}

#[test]
fn recovery_gives_up_at_the_deadline() {
    let c = ctrl(false);
    let responses = vec![-EBUSY; 400];
    let (res, tries, slept) = run_recovery(&c, &responses);
    assert!(matches!(res, Ok(-16)));
    assert_eq!(tries, 300);
    assert_eq!(slept, 30000);
}

#[test]
fn recovery_returns_other_outcomes_at_once() {
    let c = ctrl(false);
    let (res, tries, slept) = run_recovery(&c, &[-EBUSY, -19]);
    assert!(matches!(res, Err(UblkError::UringIOError(-19))));
    assert_eq!((tries, slept), (2, 100));
}

#[test]
fn device_is_set_up_by_its_target() {
    let mut c = ctrl(true);
    let dev = UblkDev::new(&NullTgt, &mut c, 9).unwrap();
    assert_eq!(dev.dev_info, c.dev_info);
    assert_eq!(dev.tgt.tgt_type, "null");
    assert_eq!(dev.tgt.dev_size, 250u64 << 30);
    assert_eq!(dev.tdata.nr_fds, 1);
    assert_eq!(dev.tdata.fds[0], 9);
    assert_eq!(dev.tdata.registered_fds(), vec![9]);
    assert_eq!(c.json.target_data, serde_json::Value::String("null-data".to_string()));

    let mut c = ctrl(true);
    let r = UblkDev::new(&BrokenTgt, &mut c, 9);
    assert!(matches!(r, Err(UblkError::OtherError(-2))));
    assert_eq!(c.json.target_data, serde_json::Value::Object(serde_json::Map::new()));
}

#[test]
fn affinity_from_mask() {
    let a = UblkQueueAffinity::from_bytes(&mask(&[0, 1])).unwrap();
    assert_eq!(a.to_bits_vec(), vec![0, 1]);
    let a = UblkQueueAffinity::from_bytes(&mask(&[3, 8, 127, 128, 1023])).unwrap();
    assert_eq!(a.to_bits_vec(), vec![3, 8, 127, 128, 1023]);
    assert!(UblkQueueAffinity::new().to_bits_vec().is_empty());
    assert!(UblkQueueAffinity::from_bytes(&vec![0u8; 127]).is_none());
    assert!(UblkQueueAffinity::from_bytes(&vec![0u8; 129]).is_none());
}

#[test]
fn affinity_export() {
    let mut c = ctrl(true);
    let dev = UblkDev::new(&NullTgt, &mut c, 3).unwrap();
    let affi = vec![
        UblkQueueAffinity::from_bytes(&mask(&[0, 1])).unwrap(),
        UblkQueueAffinity::from_bytes(&mask(&[2, 3])).unwrap(),
    ];
    c.build_json(&dev, affi, vec![101, 102]);
    assert_eq!(c.json.queues.len(), 2);
    assert_eq!(c.json.queues[0].qid, 0);
    assert_eq!(c.json.queues[0].tid, 101);
    assert_eq!(c.json.queues[0].affinity, vec![0, 1]);
    assert_eq!(c.json.queues[1].qid, 1);
    assert_eq!(c.json.queues[1].tid, 102);
    assert_eq!(c.json.queues[1].affinity, vec![2, 3]);
    assert_eq!(c.json.dev_info, dev.dev_info);
    assert_eq!(c.json.target.tgt_type, "null");
    assert_eq!(c.json.target.dev_size, 250u64 << 30);
    assert_eq!(c.json.target_data, serde_json::Value::String("null-data".to_string()));

    assert!(matches!(c.get_queue_tid(0), Ok(101)));
    assert!(matches!(c.get_queue_tid(1), Ok(102)));
    assert!(matches!(c.get_queue_tid(2), Err(UblkError::OtherError(-17))));
}

#[test]
fn error_messages() {
    let io = || std::io::Error::from_raw_os_error(5);
    assert_eq!(UblkError::UringSubmissionError(io()).message(), "failed to read the key file");
    assert_eq!(UblkError::UringIOError(-5).message(), "io_uring IO failure");
    let bad = serde_json::from_str::<serde_json::Value>("{").unwrap_err();
    assert_eq!(UblkError::JsonError(bad).message(), "json failure");
    assert_eq!(UblkError::MmapError("m".to_string()).message(), "mmap failure");
    assert_eq!(UblkError::QueueIsDown("q".to_string()).message(), "queue down failure");
    assert_eq!(UblkError::OtherIOError(io()).message(), "other IO failure");
    assert_eq!(UblkError::OtherError(-1).message(), "other failure");
}

#[test]
fn drop_deletes_only_an_added_device() {
    let d = ctrl(true).del_on_drop().unwrap();
    assert_eq!(fields(&d), (UBLK_CMD_DEL_DEV, 0, [0, 0], 0, 0));
    assert!(ctrl(false).del_on_drop().is_none());
}

#[test]
fn record_lookup_takes_the_first_entry() {
    let mut c = ctrl(true);
    let dev = UblkDev::new(&NullTgt, &mut c, 3).unwrap();
    let affi = vec![UblkQueueAffinity::new(), UblkQueueAffinity::new()];
    c.build_json(&dev, affi, vec![7, -1]);
    assert_eq!(c.json.find_queue(0), Some(0));
    assert_eq!(c.json.find_queue(1), Some(1));
    assert_eq!(c.json.find_queue(9), None);
    assert!(matches!(c.json.get_queue_tid(0), Ok(7)));
    // a thread id that is not a natural number does not count
    assert!(matches!(c.get_queue_tid(1), Err(UblkError::OtherError(-17))));
    assert!(c.json.queues[0].affinity.is_empty());
}

#[test]
fn registered_files_are_the_first_of_the_table() {
    let mut c = ctrl(true);
    let mut dev = UblkDev::new(&NullTgt, &mut c, 3).unwrap();
    dev.tdata.fds[1] = 11;
    dev.tdata.fds[2] = 12;
    dev.tdata.nr_fds = 3;
    assert_eq!(dev.tdata.registered_fds(), vec![3, 11, 12]);
    dev.tdata.nr_fds = 0;
    assert!(dev.tdata.registered_fds().is_empty());
}

#[test]
fn defaults_are_zero() {
    let t = libublk::UblkTgt::default();
    assert_eq!(t.tgt_type, "");
    assert_eq!(t.dev_size, 0);
    assert_eq!(t.params, ublk_params::default());
    let u = libublk::UblkTgt { tgt_type: "loop".to_string(), dev_size: 7, params: t.params }.clone();
    assert_eq!((u.tgt_type.as_str(), u.dev_size, u.params), ("loop", 7, t.params));
    assert_eq!(ublk_params::default().len, 0);
    assert_eq!(ublksrv_ctrl_dev_info::default().queue_depth, 0);
    assert!(UblkQueueAffinity::default().to_bits_vec().is_empty());
}

#[test]
fn record_path_has_four_digits_at_least() {
    let mut c = ctrl(false);
    assert_eq!(c.run_path("/tmp/ublk"), "/tmp/ublk/0005.json");
    c.dev_info.dev_id = 0;
    assert_eq!(c.run_path("/tmp/ublk"), "/tmp/ublk/0000.json");
    c.dev_info.dev_id = 42;
    assert_eq!(c.run_path("/run"), "/run/0042.json");
    c.dev_info.dev_id = 999;
    assert_eq!(c.run_path(""), "/0999.json");
    c.dev_info.dev_id = 1000;
    assert_eq!(c.run_path("/t"), "/t/1000.json");
    c.dev_info.dev_id = 12345;
    assert_eq!(c.run_path("/t"), "/t/12345.json");
    c.dev_info.dev_id = u32::MAX;
    assert_eq!(c.run_path("/t"), "/t/4294967295.json");
}

#[test]
fn error_numbers_are_those_of_the_system() {
    assert_eq!(libublk::uapi::EBUSY, libc::EBUSY);
    assert_eq!(libublk::uapi::EAGAIN, libc::EAGAIN);
    assert_eq!(libublk::uapi::EEXIST, libc::EEXIST);
    assert_eq!(libublk::uapi::ENOENT, libc::ENOENT);
    assert_eq!(libublk::uapi::UBLK_IO_RES_ABORT, -libc::ENODEV);
}

#[test]
fn device_description() {
    let mut c = UblkCtrl::new(3, 2, 64, 524288, 0x4a, false, 777);
    c.dev_info.state = 1;
    let mut p = ublk_params::default();
    p.basic.logical_bs_shift = 9;
    p.basic.dev_sectors = 524288000;
    assert_eq!(
        c.dump_info(&p),
        "\ndev id 3: nr_hw_queues 2 queue_depth 64 block size 512 dev_capacity 524288000\n\
         \tmax rq size 524288 daemon pid 777 flags 0x4a state LIVE"
    );
    c.dev_info.ublksrv_pid = -1;
    c.dev_info.flags = 0;
    c.dev_info.state = 9;
    p.basic.logical_bs_shift = 31;
    p.basic.dev_sectors = 0;
    assert_eq!(
        c.dump_info(&p),
        "\ndev id 3: nr_hw_queues 2 queue_depth 64 block size -2147483648 dev_capacity 0\n\
         \tmax rq size 524288 daemon pid -1 flags 0x0 state UNKNOWN"
    );
    p.basic.logical_bs_shift = 0;
    c.dev_info.flags = u64::MAX;
    c.dev_info.ublksrv_pid = i32::MIN;
    assert!(c.dump_info(&p).contains("block size 1 dev_capacity"));
    assert!(c.dump_info(&p).contains("daemon pid -2147483648 flags 0xffffffffffffffff state"));
}

#[test]
fn record_description() {
    let mut c = ctrl(true);
    let dev = UblkDev::new(&NullTgt, &mut c, 3).unwrap();
    let affi = vec![
        UblkQueueAffinity::from_bytes(&mask(&[0, 1, 12])).unwrap(),
        UblkQueueAffinity::from_bytes(&mask(&[7])).unwrap(),
        UblkQueueAffinity::new(),
    ];
    let mut dev3 = dev;
    dev3.dev_info.nr_hw_queues = 3;
    c.build_json(&dev3, affi, vec![101, 102, -4]);
    assert_eq!(c.json.dump_queue(0).unwrap(), "\tqueue 0 tid: 101 affinity(0 1 12)");
    assert_eq!(c.json.dump_queue(1).unwrap(), "\tqueue 1 tid: 102 affinity(7)");
    assert!(c.json.dump_queue(2).is_none());
    assert!(c.json.dump_queue(3).is_none());
    c.json.queues[2].tid = 5;
    assert_eq!(c.json.dump_queue(2).unwrap(), "\tqueue 2 tid: 5 affinity()");
    assert_eq!(
        c.json.dump_target(),
        "\ttarget {\"dev_size\":268435456000,\"name\":\"null\",\"type\":0}"
    );
}

#[test]
fn numbers_as_text() {
    assert_eq!(decimal(0), "0");
    assert_eq!(decimal(10), "10");
    assert_eq!(decimal(u64::MAX), "18446744073709551615");
    assert_eq!(signed_decimal(0), "0");
    assert_eq!(signed_decimal(-45), "-45");
    assert_eq!(signed_decimal(i32::MAX), "2147483647");
    assert_eq!(hex(0), "0");
    assert_eq!(hex(255), "ff");
    assert_eq!(hex(0x1a2b3c), "1a2b3c");
    assert_eq!(join_decimal(&vec![]), "");
    assert_eq!(join_decimal(&vec![5]), "5");
    assert_eq!(join_decimal(&vec![5, 60, 700]), "5 60 700");
}

#[test]
fn set_up_takes_what_the_target_left() {
    let mut c = ctrl(true);
    let info = c.dev_info;
    let mut left = UblkDev::prepare("null".to_string(), info, 9);
    left.tgt.dev_size = 4096;
    left.tdata.fds[1] = 12;
    left.tdata.nr_fds = 2;
    left.dev_info.queue_depth = 1;
    let json = serde_json::Value::String("data".to_string());
    let dev = UblkDev::set_up(left, info, &mut c, Ok(json.clone())).unwrap();
    assert_eq!(dev.dev_info, info);
    assert_eq!(dev.tgt.tgt_type, "null");
    assert_eq!(dev.tgt.dev_size, 4096);
    assert_eq!(dev.tdata.registered_fds(), vec![9, 12]);
    assert_eq!(c.json.target_data, json);
    assert_eq!(c.dev_info, info);
    assert!(c.json.queues.is_empty());

    let mut c = ctrl(true);
    let left = UblkDev::prepare("null".to_string(), info, 9);
    let r = UblkDev::set_up(left, info, &mut c, Err(UblkError::OtherError(-2)));
    assert!(matches!(r, Err(UblkError::OtherError(-2))));
    assert_eq!(c.json.target_data, serde_json::Value::Object(serde_json::Map::new()));
    assert_eq!(c.dev_info, info);
}
