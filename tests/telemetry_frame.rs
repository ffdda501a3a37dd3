use loong_mani_sdk::error::DecodeError;
use loong_mani_sdk::param::{LOONG_FINGER_DOF_LEFT, LOONG_FINGER_DOF_RIGHT, LOONG_JNT_NUM};
use loong_mani_sdk::sens::SensData;

/// A telemetry buffer for `j` joints and `l`/`r` hand degrees of freedom in
/// which every float is its own index in the frame (0, 1, 2, ...), every
/// 16-bit value is minus its index, and the plan-name slot is `name`.
fn telemetry(j: usize, l: usize, r: usize, name: &[u8; 16]) -> Vec<u8> {
    let mut b = Vec::new();
    let mut k: i32 = 0;
    let mut f = |b: &mut Vec<u8>, n: usize| {
        for _ in 0..n {
            b.extend_from_slice(&(k as f32).to_le_bytes());
            k += 1;
        }
    };
    let h = |b: &mut Vec<u8>, n: usize, base: i16| {
        for i in 0..n {
            b.extend_from_slice(&(-(base + i as i16)).to_le_bytes());
        }
    };
    b.extend_from_slice(&962i32.to_le_bytes());
    b.extend_from_slice(&12.5f64.to_le_bytes());
    h(&mut b, 2, 1);
    b.extend_from_slice(name);
    h(&mut b, 2, 3);
    f(&mut b, 4 + 3 + 3 + 3 + 3 * j);
    h(&mut b, 3 * j, 100);
    f(&mut b, 3 * j + 2 * l + 2 * r + 6 * 12);
    b
}

fn name_slot(s: &[u8]) -> [u8; 16] {
    let mut slot = [0u8; 16];
    slot[..s.len()].copy_from_slice(s);
    slot
}

fn floats(v: &[u32]) -> Vec<f32> {
    v.iter().map(|x| f32::from_bits(*x)).collect()
}

fn range(from: usize, n: usize) -> Vec<f32> {
    (from..from + n).map(|x| x as f32).collect()
}

#[test]
fn decodes_every_field_in_order() {
    let buf = telemetry(19, 1, 1, &name_slot(b"walk"));
    assert_eq!(buf.len(), 962);
    let mut s = SensData::loong_sens_data_default();
    assert_eq!(s.unpack_data(&buf), Ok(()));
    assert_eq!(s.data_size, 962);
    assert_eq!(f64::from_bits(s.timestamp), 12.5);
    assert_eq!(s.key, [-1, -2]);
    assert_eq!(s.plan_name, "walk");
    assert_eq!(s.state, [-3, -4]);
    assert_eq!(floats(&s.joy), range(0, 4));
    assert_eq!(floats(&s.rpy), range(4, 3));
    assert_eq!(floats(&s.gyr), range(7, 3));
    assert_eq!(floats(&s.acc), range(10, 3));
    assert_eq!(floats(&s.act_j), range(13, 19));
    assert_eq!(floats(&s.act_w), range(32, 19));
    assert_eq!(floats(&s.act_t), range(51, 19));
    let drv: Vec<i16> = (0..57).map(|i| -(100 + i as i16)).collect();
    assert_eq!(s.drv_temp, drv[0..19].to_vec());
    assert_eq!(s.drv_state, drv[19..38].to_vec());
    assert_eq!(s.drv_err, drv[38..57].to_vec());
    assert_eq!(floats(&s.tgt_j), range(70, 19));
    assert_eq!(floats(&s.tgt_w), range(89, 19));
    assert_eq!(floats(&s.tgt_t), range(108, 19));
    assert_eq!(floats(&s.act_finger_left), range(127, 1));
    assert_eq!(floats(&s.act_finger_right), range(128, 1));
    assert_eq!(floats(&s.tgt_finger_left), range(129, 1));
    assert_eq!(floats(&s.tgt_finger_right), range(130, 1));
    let blocks = [
        s.act_tip_p_rpy2b,
        s.act_tip_vw2b,
        s.act_tip_fm2b,
        s.tgt_tip_p_rpy2b,
        s.tgt_tip_vw2b,
        s.tgt_tip_fm2b,
    ];
    for (k, block) in blocks.iter().enumerate() {
        assert_eq!(floats(&block[0]), range(131 + 12 * k, 6));
        assert_eq!(floats(&block[1]), range(137 + 12 * k, 6));
    }
}

#[test]
fn decodes_with_other_degrees_of_freedom() {
    let buf = telemetry(6, 2, 3, &name_slot(b"x"));
    assert_eq!(buf.len(), 376 + 30 * 6 + 8 * 5);
    let mut s = SensData::new(6, 2, 3);
    assert_eq!(s.unpack_data(&buf), Ok(()));
    assert_eq!(floats(&s.act_j), range(13, 6));
    assert_eq!(floats(&s.tgt_t), range(43, 6));
    assert_eq!(floats(&s.act_finger_left), range(49, 2));
    assert_eq!(floats(&s.act_finger_right), range(51, 3));
    assert_eq!(floats(&s.tgt_finger_left), range(54, 2));
    assert_eq!(floats(&s.tgt_finger_right), range(56, 3));
    assert_eq!(floats(&s.tgt_tip_fm2b[1]), range(59 + 66, 6));
}

#[test]
fn plan_name_trailing_nuls_are_trimmed() {
    let mut slot = [0u8; 16];
    slot[..3].copy_from_slice(b"abc");
    let buf = telemetry(19, 1, 1, &slot);
    let mut s = SensData::loong_sens_data_default();
    assert_eq!(s.unpack_data(&buf), Ok(()));
    assert_eq!(s.plan_name, "abc");
}

#[test]
fn plan_name_full_slot_and_empty_slot() {
    let mut s = SensData::loong_sens_data_default();
    s.unpack_data(&telemetry(19, 1, 1, b"0123456789abcdef")).unwrap();
    assert_eq!(s.plan_name, "0123456789abcdef");
    s.unpack_data(&telemetry(19, 1, 1, &[0u8; 16])).unwrap();
    assert_eq!(s.plan_name, "");
}

#[test]
fn plan_name_keeps_inner_nuls() {
    let mut s = SensData::loong_sens_data_default();
    s.unpack_data(&telemetry(19, 1, 1, &name_slot(b"a\0b"))).unwrap();
    assert_eq!(s.plan_name, "a\0b");
}

#[test]
fn plan_name_invalid_utf8_is_substituted() {
    let mut s = SensData::loong_sens_data_default();
    s.unpack_data(&telemetry(19, 1, 1, &name_slot(&[b'o', b'k', 0xff, b'!']))).unwrap();
    assert_eq!(s.plan_name, "ok\u{fffd}!");
    s.unpack_data(&telemetry(19, 1, 1, &name_slot(&[b'x', 0xe2, 0x82]))).unwrap();
    assert_eq!(s.plan_name, "x\u{fffd}");
}

#[test]
fn truncated_buffer_leaves_previous_values() {
    let mut s = SensData::loong_sens_data_default();
    let good = telemetry(19, 1, 1, &name_slot(b"stand"));
    s.unpack_data(&good).unwrap();
    let other = telemetry(19, 1, 1, &name_slot(b"other"));
    assert_eq!(s.unpack_data(&other[..961]), Err(DecodeError::Truncated));
    assert_eq!(s.unpack_data(&other[..10]), Err(DecodeError::Truncated));
    assert_eq!(s.unpack_data(&[]), Err(DecodeError::Truncated));
    assert_eq!(s.plan_name, "stand");
    assert_eq!(s.data_size, 962);
    assert_eq!(floats(&s.act_j), range(13, 19));
}

#[test]
fn truncated_buffer_leaves_a_fresh_frame_zeroed() {
    let mut s = SensData::new(19, 1, 1);
    let buf = telemetry(19, 1, 1, &name_slot(b"abc"));
    assert_eq!(s.unpack_data(&buf[..500]), Err(DecodeError::Truncated));
    assert_eq!(s.plan_name, "none");
    assert_eq!(s.timestamp, 0);
    assert_eq!(s.act_j, vec![0u32; 19]);
}

#[test]
fn trailing_bytes_are_ignored() {
    let mut buf = telemetry(19, 1, 1, &name_slot(b"abc"));
    buf.extend_from_slice(&[1, 2, 3, 4]);
    let mut s = SensData::loong_sens_data_default();
    assert_eq!(s.unpack_data(&buf), Ok(()));
    assert_eq!(floats(&s.tgt_tip_fm2b[1]), range(137 + 60, 6));
}

#[test]
fn new_frame_is_zeroed() {
    let s = SensData::new(4, 2, 3);
    assert_eq!(s.data_size, 0);
    assert_eq!(s.timestamp, 0);
    assert_eq!(s.plan_name, "none");
    assert_eq!(s.key, [0, 0]);
    assert_eq!(s.act_t, vec![0u32; 4]);
    assert_eq!(s.drv_err, vec![0i16; 4]);
    assert_eq!(s.tgt_finger_left, vec![0u32; 2]);
    assert_eq!(s.tgt_finger_right, vec![0u32; 3]);
    assert_eq!(s.act_tip_vw2b, [[0u32; 6]; 2]);
    let d = SensData::loong_sens_data_default();
    assert_eq!(
        (d.jnt_num, d.finger_dof_left, d.finger_dof_right),
        (LOONG_JNT_NUM, LOONG_FINGER_DOF_LEFT, LOONG_FINGER_DOF_RIGHT)
    );
}

#[test]
fn field_sizes_add_up_to_the_frame_length() {
    let s = SensData::loong_sens_data_default();
    let sizes = s.get_fmt_size();
    assert_eq!(sizes.len(), 28);
    assert_eq!(sizes.iter().sum::<usize>(), 962);
    assert_eq!(&sizes[..9], &[4, 8, 4, 16, 4, 16, 12, 12, 12]);
    assert_eq!(&sizes[9..15], &[76, 76, 76, 38, 38, 38]);
    assert_eq!(&sizes[18..22], &[4, 4, 4, 4]);
    assert_eq!(sizes[27], 48);
}

#[test]
fn field_formats_name_counts_and_types() {
    let s = SensData::new(19, 6, 7);
    let fmts = s.get_fmt();
    assert_eq!(fmts.len(), 28);
    assert_eq!(&fmts[..6], &["i", "d", "2h", "16s", "2h", "4f"]);
    assert_eq!(&fmts[6..9], &["3f", "3f", "3f"]);
    assert_eq!(&fmts[9..18], &["19f", "19f", "19f", "19h", "19h", "19h", "19f", "19f", "19f"]);
    assert_eq!(&fmts[18..22], &["6f", "7f", "6f", "7f"]);
    assert_eq!(&fmts[22..], &["12f", "12f", "12f", "12f", "12f", "12f"]);
}
