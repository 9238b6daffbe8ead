use libublk::{
    build_user_data, is_target_io, round_up, ublk_user_copy_pos, user_data_to_op,
    user_data_to_tag, user_data_to_tgt_data,
};

#[test]
fn pack_layout_is_exact() {
    assert_eq!(build_user_data(0x1234, 0x21, 0, false), 0x0021_1234);
    assert_eq!(build_user_data(0xffff, 0xff, 0xffff, false), 0x00ff_ffff_ffff);
    assert_eq!(build_user_data(2, 1, 0xabcd, true), 0x8000_00ab_cd01_0002);
    assert_eq!(build_user_data(0, 0, 0, true), 1u64 << 63);
}

#[test]
fn pack_then_unpack_is_identity() {
    for &(tag, op, data, tgt) in &[
        (0u16, 0u32, 0u32, false),
        (1, 0x20, 0, false),
        (0xffff, 0xff, 0xffff, true),
        (77, 0x21, 0x100, true),
        (4095, 1, 0x8000, false),
    ] {
        let w = build_user_data(tag, op, data, tgt);
        assert_eq!(user_data_to_tag(w), tag as u32);
        assert_eq!(user_data_to_op(w), op);
        assert_eq!(user_data_to_tgt_data(w), data);
        assert_eq!(is_target_io(w), tgt);
    }
}

#[test]
fn unpack_reads_the_right_bits() {
    let w: u64 = 0x8000_0012_3456_789a;
    assert!(is_target_io(w));
    assert_eq!(user_data_to_tag(w), 0x789a);
    assert_eq!(user_data_to_op(w), 0x56);
    assert_eq!(user_data_to_tgt_data(w), 0x1234);
    assert!(!is_target_io(0x7fff_ffff_ffff_ffff));
}

#[test]
fn round_up_gives_least_multiple() {
    assert_eq!(round_up(0, 4096), 0);
    assert_eq!(round_up(1, 4096), 4096);
    assert_eq!(round_up(4096, 4096), 4096);
    assert_eq!(round_up(4097, 4096), 8192);
    assert_eq!(round_up(96, 4096), 4096);
    assert_eq!(round_up(7, 1), 7);
    assert_eq!(round_up(13, 8), 16);
    for x in 0u32..300 {
        let r = round_up(x, 16);
        assert_eq!(r % 16, 0);
        assert!(r >= x && r - x < 16);
    }
}

#[test]
fn user_copy_pos_is_exact() {
    assert_eq!(ublk_user_copy_pos(0, 0, 0), 0x8000_0000);
    assert_eq!(ublk_user_copy_pos(0, 0, 512), 0x8000_0000 + 512);
    assert_eq!(ublk_user_copy_pos(0, 1, 0), 0x8000_0000 + (1u64 << 25));
    assert_eq!(ublk_user_copy_pos(1, 0, 0), 0x8000_0000 + (1u64 << 41));
    assert_eq!(
        ublk_user_copy_pos(3, 5, 0x01ff_ffff),
        0x8000_0000 + ((3u64 << 41) | (5u64 << 25) | 0x01ff_ffff)
    );
}

#[test]
fn user_copy_pos_tells_inputs_apart() {
    let mut seen = Vec::new();
    for q in [0u16, 1, 2, 0xffff] {
        for t in [0u16, 1, 63, 4095] {
            for off in [0u32, 1, 4096, 0x01ff_ffff] {
                let p = ublk_user_copy_pos(q, t, off);
                assert!(!seen.contains(&p));
                seen.push(p);
            }
        }
    }
    assert_eq!(seen.len(), 64);
}
