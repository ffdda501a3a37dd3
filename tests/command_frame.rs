use loong_mani_sdk::ctrl::{
    ArmMode, CtrlData, FiltLevel, FingerMode, InCharge, LumbarMode, NeckMode, ARM_POSE_LEN,
};
use loong_mani_sdk::error::{DecodeError, ShapeError};

fn bits(v: &[f32]) -> Vec<u32> {
    v.iter().map(|x| x.to_bits()).collect()
}

fn pose(a: &[f32], b: &[f32]) -> Vec<Vec<u32>> {
    vec![bits(a), bits(b)]
}

fn f32_at(b: &[u8], at: usize) -> f32 {
    f32::from_le_bytes([b[at], b[at + 1], b[at + 2], b[at + 3]])
}

fn i16_at(b: &[u8], at: usize) -> i16 {
    i16::from_le_bytes([b[at], b[at + 1]])
}

#[test]
fn end_to_end_frame_length() {
    let mut f = CtrlData::new(7, 1, 1, 2, 3).unwrap();
    f.set_arm_cmd(pose(&[0.4, 0.4, 0.1, 0.0, 0.0, 0.0, 0.5], &[0.2, -0.4, 0.1, 0.0, 0.0, 0.0, 0.5]))
        .unwrap();
    let bytes = f.pack_data();
    assert_eq!(bytes.len(), 144);
    assert_eq!(bytes.len(), 12 + 4 * (14 + 12 + 1 + 1 + 2 + 3));
    assert_eq!(f32_at(&bytes, 12), 0.4);
    assert_eq!(f32_at(&bytes, 16), 0.4);
    assert_eq!(f32_at(&bytes, 40), 0.2);
    assert_eq!(f32_at(&bytes, 44), -0.4);
    assert_eq!(f32_at(&bytes, 64), 0.5);
}

#[test]
fn encoding_layout_of_new_frame() {
    let f = CtrlData::new(7, 2, 3, 2, 3).unwrap();
    let bytes = f.pack_data();
    assert_eq!(bytes.len(), 12 + 4 * (14 + 12 + 2 + 3 + 2 + 3));
    // in charge, filter level 2, no arm mode, no hand mode, look at left hand, no lumbar mode
    assert_eq!(&bytes[..12], &[1, 0, 2, 0, 0, 0, 0, 0, 5, 0, 0, 0]);
    let start = [0.4f32, 0.3, 0.1, 0.0, 0.0, 0.0, 0.5, 0.2, -0.3, 0.1, 0.0, 0.0, 0.0, 0.5];
    for (k, v) in start.iter().enumerate() {
        assert_eq!(f32_at(&bytes, 12 + 4 * k), *v);
    }
    assert!(bytes[68..].iter().all(|b| *b == 0));
}

#[test]
fn mode_selectors_are_written_little_endian() {
    let mut f = CtrlData::new(7, 1, 1, 2, 3).unwrap();
    f.set_in_charge(InCharge::ManiCtrlDisable)
        .set_filt_level(FiltLevel::Disabled)
        .set_arm_mode(ArmMode::CartesianBodyFrame)
        .set_finger_mode(FingerMode::Extend)
        .set_neck_mode(NeckMode::LookRightHand)
        .set_lumbar_mode(LumbarMode::PostCtrl);
    let bytes = f.pack_data();
    let codes: Vec<i16> = (0..6).map(|k| i16_at(&bytes, 2 * k)).collect();
    assert_eq!(codes, vec![0, 6, 4, 4, 6, 4]);
}

#[test]
fn vectors_follow_the_matrices_in_order() {
    let mut f = CtrlData::new(7, 1, 2, 2, 3).unwrap();
    f.set_arm_fm(pose(&[1.0, 2.0, 3.0, 4.0, 5.0, 6.0], &[7.0, 8.0, 9.0, 10.0, 11.0, 12.0]))
        .unwrap()
        .set_finger_left(bits(&[13.0]))
        .unwrap()
        .set_finger_right(bits(&[14.0, 15.0]))
        .unwrap()
        .set_neck_cmd(bits(&[16.0, 17.0]))
        .unwrap()
        .set_lumbar_cmd(bits(&[18.0, 19.0, 20.0]))
        .unwrap();
    let bytes = f.pack_data();
    assert_eq!(bytes.len(), 12 + 4 * (14 + 12 + 1 + 2 + 2 + 3));
    for k in 0..20 {
        assert_eq!(f32_at(&bytes, 68 + 4 * k), (k + 1) as f32);
    }
}

#[test]
fn round_trip_reproduces_every_field() {
    let mut sent = CtrlData::new(7, 1, 1, 2, 3).unwrap();
    sent.set_in_charge(InCharge::ManiCtrlDisable)
        .set_filt_level(FiltLevel::Level4)
        .set_arm_mode(ArmMode::JntAxisCtrl)
        .set_finger_mode(FingerMode::Reset)
        .set_neck_mode(NeckMode::NavigationFollow)
        .set_lumbar_mode(LumbarMode::LowerLimbCmdPassthrough);
    sent.set_arm_cmd(pose(&[0.1, -2.5, 3.25, f32::MIN_POSITIVE, -0.0, 1e30, 7.0], &[
        9.5, 8.5, 7.5, 6.5, 5.5, 4.5, 3.5,
    ]))
    .unwrap();
    sent.set_arm_fm(pose(&[1.5, 2.5, 3.5, 4.5, 5.5, 6.5], &[-1.5, -2.5, -3.5, -4.5, -5.5, -6.5]))
        .unwrap();
    sent.set_finger_left(vec![f32::NAN.to_bits() | 1]).unwrap();
    sent.set_finger_right(bits(&[42.0])).unwrap();
    sent.set_neck_cmd(bits(&[0.25, -0.25])).unwrap();
    sent.set_lumbar_cmd(bits(&[1.0, 2.0, 3.0])).unwrap();
    let bytes = sent.pack_data();

    let mut reader = CtrlData::new(7, 1, 1, 2, 3).unwrap();
    assert_eq!(reader.unpack_data(&bytes), Ok(()));
    assert_eq!(reader.in_charge(), InCharge::ManiCtrlDisable);
    assert_eq!(reader.filt_level(), FiltLevel::Level4);
    assert_eq!(reader.arm_mode(), ArmMode::JntAxisCtrl);
    assert_eq!(reader.finger_mode(), FingerMode::Reset);
    assert_eq!(reader.neck_mode(), NeckMode::NavigationFollow);
    assert_eq!(reader.lumbar_mode(), LumbarMode::LowerLimbCmdPassthrough);
    assert_eq!(reader.arm_cmd(), sent.arm_cmd());
    assert_eq!(reader.arm_fm(), sent.arm_fm());
    assert_eq!(reader.finger_left(), sent.finger_left());
    assert_eq!(reader.finger_right(), sent.finger_right());
    assert_eq!(reader.neck_cmd(), sent.neck_cmd());
    assert_eq!(reader.lumbar_cmd(), sent.lumbar_cmd());
    assert_eq!(reader.pack_data(), bytes);
}

#[test]
fn encoding_twice_gives_the_same_bytes() {
    let f = CtrlData::default_loong_ctrl_data();
    let a = f.pack_data();
    let b = f.pack_data();
    assert_eq!(a, b);
}

#[test]
fn setters_refuse_wrong_lengths_and_keep_the_frame() {
    let mut f = CtrlData::new(7, 1, 1, 2, 3).unwrap();
    let before = f.pack_data();
    assert_eq!(
        f.set_finger_left(bits(&[1.0, 2.0])).err(),
        Some(ShapeError { expected: 1, found: 2 })
    );
    assert_eq!(f.set_finger_right(Vec::new()).err(), Some(ShapeError { expected: 1, found: 0 }));
    assert_eq!(f.set_neck_cmd(bits(&[1.0])).err(), Some(ShapeError { expected: 2, found: 1 }));
    assert_eq!(
        f.set_lumbar_cmd(bits(&[1.0, 2.0, 3.0, 4.0])).err(),
        Some(ShapeError { expected: 3, found: 4 })
    );
    assert_eq!(
        f.set_arm_cmd(vec![bits(&[0.0; 6]), bits(&[0.0; 7])]).err(),
        Some(ShapeError { expected: 7, found: 6 })
    );
    assert_eq!(
        f.set_arm_cmd(vec![bits(&[0.0; 7])]).err(),
        Some(ShapeError { expected: 2, found: 1 })
    );
    assert_eq!(
        f.set_arm_fm(vec![bits(&[0.0; 6]), bits(&[0.0; 7])]).err(),
        Some(ShapeError { expected: 6, found: 7 })
    );
    assert_eq!(f.pack_data(), before);
}

#[test]
fn setters_accept_right_lengths_and_keep_the_values() {
    let mut f = CtrlData::new(7, 2, 1, 2, 3).unwrap();
    f.set_finger_left(bits(&[1.0, 2.0])).unwrap();
    f.set_finger_right(bits(&[3.0])).unwrap();
    f.set_neck_cmd(bits(&[4.0, 5.0])).unwrap();
    f.set_lumbar_cmd(bits(&[6.0, 7.0, 8.0])).unwrap();
    let arm = pose(&[1.0, 2.0, 3.0, 4.0, 5.0, 6.0, 7.0], &[8.0, 9.0, 10.0, 11.0, 12.0, 13.0, 14.0]);
    f.set_arm_cmd(arm.clone()).unwrap();
    assert_eq!(f.finger_left(), &bits(&[1.0, 2.0]));
    assert_eq!(f.finger_right(), &bits(&[3.0]));
    assert_eq!(f.neck_cmd(), &bits(&[4.0, 5.0]));
    assert_eq!(f.lumbar_cmd(), &bits(&[6.0, 7.0, 8.0]));
    assert_eq!(f.arm_cmd(), &arm);
}

#[test]
fn zero_degrees_of_freedom_are_allowed() {
    let mut f = CtrlData::new(7, 0, 0, 0, 0).unwrap();
    assert_eq!(f.pack_data().len(), 12 + 4 * 26);
    assert!(f.set_neck_cmd(Vec::new()).is_ok());
}

#[test]
fn new_refuses_other_arm_dof() {
    assert_eq!(
        CtrlData::new(6, 1, 1, 2, 3).err(),
        Some(ShapeError { expected: ARM_POSE_LEN as usize, found: 6 })
    );
    assert!(CtrlData::new(8, 1, 1, 2, 3).is_err());
}

#[test]
fn default_frame_holds_the_robot_defaults() {
    let f = CtrlData::default_loong_ctrl_data();
    assert_eq!(f.in_charge(), InCharge::ManiCtrlEnable);
    assert_eq!(f.filt_level(), FiltLevel::Level1);
    assert_eq!(f.arm_mode(), ArmMode::CartesianBodyFrame);
    assert_eq!(f.finger_mode(), FingerMode::JntAxisCtrl);
    assert_eq!(f.neck_mode(), NeckMode::LookLeftHand);
    assert_eq!(f.lumbar_mode(), LumbarMode::NoCtrl);
    assert_eq!(
        f.arm_cmd(),
        &pose(&[0.4, 0.4, 0.1, 0.0, 0.0, 0.0, 0.5], &[0.2, -0.4, 0.1, 0.0, 0.0, 0.0, 0.5])
    );
    assert_eq!(f.arm_fm(), &vec![vec![0u32; 6], vec![0u32; 6]]);
    assert_eq!(
        (f.arm_dof(), f.finger_dof_left(), f.finger_dof_right(), f.neck_dof(), f.lumbar_dof()),
        (7, 1, 1, 2, 3)
    );
    assert_eq!(f.neck_cmd(), &vec![0u32; 2]);
    assert_eq!(f.lumbar_cmd(), &vec![0u32; 3]);
    assert_eq!(f.pack_data().len(), 144);
}

#[test]
fn reader_refuses_truncated_buffer() {
    let sent = CtrlData::default_loong_ctrl_data();
    let bytes = sent.pack_data();
    let mut reader = CtrlData::new(7, 1, 1, 2, 3).unwrap();
    let before = reader.pack_data();
    assert_eq!(reader.unpack_data(&bytes[..143]), Err(DecodeError::Truncated));
    assert_eq!(reader.unpack_data(&[]), Err(DecodeError::Truncated));
    assert_eq!(reader.pack_data(), before);
}

#[test]
fn reader_refuses_unknown_mode() {
    let sent = CtrlData::default_loong_ctrl_data();
    let mut bytes = sent.pack_data();
    bytes[8] = 7;
    let mut reader = CtrlData::new(7, 1, 1, 2, 3).unwrap();
    let before = reader.pack_data();
    assert_eq!(reader.unpack_data(&bytes), Err(DecodeError::UnknownMode));
    assert_eq!(reader.pack_data(), before);
    bytes[8] = 5;
    bytes[1] = 0xff;
    assert_eq!(reader.unpack_data(&bytes), Err(DecodeError::UnknownMode));
}

#[test]
fn reader_ignores_trailing_bytes() {
    let sent = CtrlData::default_loong_ctrl_data();
    let mut bytes = sent.pack_data();
    bytes.extend_from_slice(&[9, 9, 9]);
    let mut reader = CtrlData::new(7, 1, 1, 2, 3).unwrap();
    assert_eq!(reader.unpack_data(&bytes), Ok(()));
    assert_eq!(reader.pack_data(), sent.pack_data());
}

#[test]
fn mode_codes_are_ordinals() {
    assert_eq!(InCharge::ManiCtrlEnable.code(), 1);
    assert_eq!(FiltLevel::Level5.code(), 5);
    assert_eq!(ArmMode::Reset.code(), 1);
    assert_eq!(FingerMode::LowerLimbCmdPassthrough.code(), 2);
    assert_eq!(NeckMode::LookLeftHand.code(), 5);
    assert_eq!(LumbarMode::JntAxisCtrl.code(), 3);
    assert_eq!(NeckMode::from_code(6), Some(NeckMode::LookRightHand));
    assert_eq!(NeckMode::from_code(7), None);
    assert_eq!(FiltLevel::from_code(-1), None);
    assert_eq!(InCharge::from_code(0), Some(InCharge::ManiCtrlDisable));
}
