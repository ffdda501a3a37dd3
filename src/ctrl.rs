//! The command frame: mode selectors and numeric commands for the arms,
//! hands, neck and lumbar joint, and their fixed little-endian encoding.
use crate::error::{DecodeError, ShapeError};
use crate::param::{
    LOONG_ARM_DOF, LOONG_FINGER_DOF_LEFT, LOONG_FINGER_DOF_RIGHT, LOONG_LUMBAR_DOF,
    LOONG_NECK_DOF,
};
use crate::wire::{
    i16_at, i16_le, lemma_i16_at_prefix, lemma_i16_last, lemma_u32s_at_prefix, lemma_u32s_at_shift, lemma_u32s_last,
    lemma_u32s_le_len, filled, filled_vec, push_i16, push_u32s, read_i16, read_u32s, u32s_at, u32s_le,
};
use vstd::prelude::*;

verus! {

/// Whether the controller has taken charge of the manipulators.
#[derive(Clone, Copy, Debug, PartialEq, Eq, Structural)]
pub enum InCharge {
    ManiCtrlDisable,
    ManiCtrlEnable,
}

/// Strength of the command filter, or no filtering.
#[derive(Clone, Copy, Debug, PartialEq, Eq, Structural)]
pub enum FiltLevel {
    Level0,
    Level1,
    Level2,
    Level3,
    Level4,
    Level5,
    Disabled,
}

#[derive(Clone, Copy, Debug, PartialEq, Eq, Structural)]
pub enum ArmMode {
    NoCtrl,
    Reset,
    LowerLimbCmdPassthrough,
    JntAxisCtrl,
    CartesianBodyFrame,
}

#[derive(Clone, Copy, Debug, PartialEq, Eq, Structural)]
pub enum FingerMode {
    NoCtrl,
    Reset,
    LowerLimbCmdPassthrough,
    JntAxisCtrl,
    /// Fingers stretched out.
    Extend,
}

#[derive(Clone, Copy, Debug, PartialEq, Eq, Structural)]
pub enum NeckMode {
    NoCtrl,
    Reset,
    LowerLimbCmdPassthrough,
    JntAxisCtrl,
    NavigationFollow,
    LookLeftHand,
    LookRightHand,
}

#[derive(Clone, Copy, Debug, PartialEq, Eq, Structural)]
pub enum LumbarMode {
    NoCtrl,
    Reset,
    LowerLimbCmdPassthrough,
    JntAxisCtrl,
    PostCtrl,
}

impl InCharge {
    /// The wire value: the variant's ordinal.
    pub open spec fn spec_code(self) -> i16 {
        match self {
            InCharge::ManiCtrlDisable => 0,
            InCharge::ManiCtrlEnable => 1,
        }
    }

    pub open spec fn spec_from_code(c: i16) -> Option<InCharge> {
        if c == 0 {
            Some(InCharge::ManiCtrlDisable)
        } else if c == 1 {
            Some(InCharge::ManiCtrlEnable)
        } else {
            None
        }
    }

    pub fn code(self) -> (r: i16)
        ensures
            r == self.spec_code(),
    {
        match self {
            InCharge::ManiCtrlDisable => 0,
            InCharge::ManiCtrlEnable => 1,
        }
    }

    pub fn from_code(c: i16) -> (r: Option<InCharge>)
        ensures
            r == Self::spec_from_code(c),
    {
        if c == 0 {
            Some(InCharge::ManiCtrlDisable)
        } else if c == 1 {
            Some(InCharge::ManiCtrlEnable)
        } else {
            None
        }
    }
}

impl FiltLevel {
    /// The wire value: the variant's ordinal.
    pub open spec fn spec_code(self) -> i16 {
        match self {
            FiltLevel::Level0 => 0,
            FiltLevel::Level1 => 1,
            FiltLevel::Level2 => 2,
            FiltLevel::Level3 => 3,
            FiltLevel::Level4 => 4,
            FiltLevel::Level5 => 5,
            FiltLevel::Disabled => 6,
        }
    }

    pub open spec fn spec_from_code(c: i16) -> Option<FiltLevel> {
        if c == 0 {
            Some(FiltLevel::Level0)
        } else if c == 1 {
            Some(FiltLevel::Level1)
        } else if c == 2 {
            Some(FiltLevel::Level2)
        } else if c == 3 {
            Some(FiltLevel::Level3)
        } else if c == 4 {
            Some(FiltLevel::Level4)
        } else if c == 5 {
            Some(FiltLevel::Level5)
        } else if c == 6 {
            Some(FiltLevel::Disabled)
        } else {
            None
        }
    }

    pub fn code(self) -> (r: i16)
        ensures
            r == self.spec_code(),
    {
        match self {
            FiltLevel::Level0 => 0,
            FiltLevel::Level1 => 1,
            FiltLevel::Level2 => 2,
            FiltLevel::Level3 => 3,
            FiltLevel::Level4 => 4,
            FiltLevel::Level5 => 5,
            FiltLevel::Disabled => 6,
        }
    }

    pub fn from_code(c: i16) -> (r: Option<FiltLevel>)
        ensures
            r == Self::spec_from_code(c),
    {
        if c == 0 {
            Some(FiltLevel::Level0)
        } else if c == 1 {
            Some(FiltLevel::Level1)
        } else if c == 2 {
            Some(FiltLevel::Level2)
        } else if c == 3 {
            Some(FiltLevel::Level3)
        } else if c == 4 {
            Some(FiltLevel::Level4)
        } else if c == 5 {
            Some(FiltLevel::Level5)
        } else if c == 6 {
            Some(FiltLevel::Disabled)
        } else {
            None
        }
    }
}

impl ArmMode {
    /// The wire value: the variant's ordinal.
    pub open spec fn spec_code(self) -> i16 {
        match self {
            ArmMode::NoCtrl => 0,
            ArmMode::Reset => 1,
            ArmMode::LowerLimbCmdPassthrough => 2,
            ArmMode::JntAxisCtrl => 3,
            ArmMode::CartesianBodyFrame => 4,
        }
    }

    pub open spec fn spec_from_code(c: i16) -> Option<ArmMode> {
        if c == 0 {
            Some(ArmMode::NoCtrl)
        } else if c == 1 {
            Some(ArmMode::Reset)
        } else if c == 2 {
            Some(ArmMode::LowerLimbCmdPassthrough)
        } else if c == 3 {
            Some(ArmMode::JntAxisCtrl)
        } else if c == 4 {
            Some(ArmMode::CartesianBodyFrame)
        } else {
            None
        }
    }

    pub fn code(self) -> (r: i16)
        ensures
            r == self.spec_code(),
    {
        match self {
            ArmMode::NoCtrl => 0,
            ArmMode::Reset => 1,
            ArmMode::LowerLimbCmdPassthrough => 2,
            ArmMode::JntAxisCtrl => 3,
            ArmMode::CartesianBodyFrame => 4,
        }
    }

    pub fn from_code(c: i16) -> (r: Option<ArmMode>)
        ensures
            r == Self::spec_from_code(c),
    {
        if c == 0 {
            Some(ArmMode::NoCtrl)
        } else if c == 1 {
            Some(ArmMode::Reset)
        } else if c == 2 {
            Some(ArmMode::LowerLimbCmdPassthrough)
        } else if c == 3 {
            Some(ArmMode::JntAxisCtrl)
        } else if c == 4 {
            Some(ArmMode::CartesianBodyFrame)
        } else {
            None
        }
    }
}

impl FingerMode {
    /// The wire value: the variant's ordinal.
    pub open spec fn spec_code(self) -> i16 {
        match self {
            FingerMode::NoCtrl => 0,
            FingerMode::Reset => 1,
            FingerMode::LowerLimbCmdPassthrough => 2,
            FingerMode::JntAxisCtrl => 3,
            FingerMode::Extend => 4,
        }
    }

    pub open spec fn spec_from_code(c: i16) -> Option<FingerMode> {
        if c == 0 {
            Some(FingerMode::NoCtrl)
        } else if c == 1 {
            Some(FingerMode::Reset)
        } else if c == 2 {
            Some(FingerMode::LowerLimbCmdPassthrough)
        } else if c == 3 {
            Some(FingerMode::JntAxisCtrl)
        } else if c == 4 {
            Some(FingerMode::Extend)
        } else {
            None
        }
    }

    pub fn code(self) -> (r: i16)
        ensures
            r == self.spec_code(),
    {
        match self {
            FingerMode::NoCtrl => 0,
            FingerMode::Reset => 1,
            FingerMode::LowerLimbCmdPassthrough => 2,
            FingerMode::JntAxisCtrl => 3,
            FingerMode::Extend => 4,
        }
    }

    pub fn from_code(c: i16) -> (r: Option<FingerMode>)
        ensures
            r == Self::spec_from_code(c),
    {
        if c == 0 {
            Some(FingerMode::NoCtrl)
        } else if c == 1 {
            Some(FingerMode::Reset)
        } else if c == 2 {
            Some(FingerMode::LowerLimbCmdPassthrough)
        } else if c == 3 {
            Some(FingerMode::JntAxisCtrl)
        } else if c == 4 {
            Some(FingerMode::Extend)
        } else {
            None
        }
    }
}

impl NeckMode {
    /// The wire value: the variant's ordinal.
    pub open spec fn spec_code(self) -> i16 {
        match self {
            NeckMode::NoCtrl => 0,
            NeckMode::Reset => 1,
            NeckMode::LowerLimbCmdPassthrough => 2,
            NeckMode::JntAxisCtrl => 3,
            NeckMode::NavigationFollow => 4,
            NeckMode::LookLeftHand => 5,
            NeckMode::LookRightHand => 6,
        }
    }

    pub open spec fn spec_from_code(c: i16) -> Option<NeckMode> {
        if c == 0 {
            Some(NeckMode::NoCtrl)
        } else if c == 1 {
            Some(NeckMode::Reset)
        } else if c == 2 {
            Some(NeckMode::LowerLimbCmdPassthrough)
        } else if c == 3 {
            Some(NeckMode::JntAxisCtrl)
        } else if c == 4 {
            Some(NeckMode::NavigationFollow)
        } else if c == 5 {
            Some(NeckMode::LookLeftHand)
        } else if c == 6 {
            Some(NeckMode::LookRightHand)
        } else {
            None
        }
    }

    pub fn code(self) -> (r: i16)
        ensures
            r == self.spec_code(),
    {
        match self {
            NeckMode::NoCtrl => 0,
            NeckMode::Reset => 1,
            NeckMode::LowerLimbCmdPassthrough => 2,
            NeckMode::JntAxisCtrl => 3,
            NeckMode::NavigationFollow => 4,
            NeckMode::LookLeftHand => 5,
            NeckMode::LookRightHand => 6,
        }
    }

    pub fn from_code(c: i16) -> (r: Option<NeckMode>)
        ensures
            r == Self::spec_from_code(c),
    {
        if c == 0 {
            Some(NeckMode::NoCtrl)
        } else if c == 1 {
            Some(NeckMode::Reset)
        } else if c == 2 {
            Some(NeckMode::LowerLimbCmdPassthrough)
        } else if c == 3 {
            Some(NeckMode::JntAxisCtrl)
        } else if c == 4 {
            Some(NeckMode::NavigationFollow)
        } else if c == 5 {
            Some(NeckMode::LookLeftHand)
        } else if c == 6 {
            Some(NeckMode::LookRightHand)
        } else {
            None
        }
    }
}

impl LumbarMode {
    /// The wire value: the variant's ordinal.
    pub open spec fn spec_code(self) -> i16 {
        match self {
            LumbarMode::NoCtrl => 0,
            LumbarMode::Reset => 1,
            LumbarMode::LowerLimbCmdPassthrough => 2,
            LumbarMode::JntAxisCtrl => 3,
            LumbarMode::PostCtrl => 4,
        }
    }

    pub open spec fn spec_from_code(c: i16) -> Option<LumbarMode> {
        if c == 0 {
            Some(LumbarMode::NoCtrl)
        } else if c == 1 {
            Some(LumbarMode::Reset)
        } else if c == 2 {
            Some(LumbarMode::LowerLimbCmdPassthrough)
        } else if c == 3 {
            Some(LumbarMode::JntAxisCtrl)
        } else if c == 4 {
            Some(LumbarMode::PostCtrl)
        } else {
            None
        }
    }

    pub fn code(self) -> (r: i16)
        ensures
            r == self.spec_code(),
    {
        match self {
            LumbarMode::NoCtrl => 0,
            LumbarMode::Reset => 1,
            LumbarMode::LowerLimbCmdPassthrough => 2,
            LumbarMode::JntAxisCtrl => 3,
            LumbarMode::PostCtrl => 4,
        }
    }

    pub fn from_code(c: i16) -> (r: Option<LumbarMode>)
        ensures
            r == Self::spec_from_code(c),
    {
        if c == 0 {
            Some(LumbarMode::NoCtrl)
        } else if c == 1 {
            Some(LumbarMode::Reset)
        } else if c == 2 {
            Some(LumbarMode::LowerLimbCmdPassthrough)
        } else if c == 3 {
            Some(LumbarMode::JntAxisCtrl)
        } else if c == 4 {
            Some(LumbarMode::PostCtrl)
        } else {
            None
        }
    }
}

/// Number of pose components in an arm command row: x, y, z, roll, pitch,
/// yaw and the auxiliary angle. A frame's arm degrees of freedom must equal it.
pub const ARM_POSE_LEN: i16 = 7;

/// Number of force/moment components in an arm force row.
pub const ARM_FM_LEN: usize = 6;

/// Bit patterns of the `f32` values used in the nominal arm poses.
pub const F32_0_1: u32 = 0x3dcccccd;

pub const F32_0_2: u32 = 0x3e4ccccd;

pub const F32_0_3: u32 = 0x3e99999a;

pub const F32_0_4: u32 = 0x3ecccccd;

pub const F32_0_5: u32 = 0x3f000000;

pub const F32_MINUS_0_3: u32 = 0xbe99999a;

pub const F32_MINUS_0_4: u32 = 0xbecccccd;

/// The pose a new frame starts with:
/// `[[0.4, 0.3, 0.1, 0, 0, 0, 0.5], [0.2, -0.3, 0.1, 0, 0, 0, 0.5]]`.
pub open spec fn start_pose() -> Seq<Seq<u32>> {
    seq![
        seq![F32_0_4, F32_0_3, F32_0_1, 0u32, 0u32, 0u32, F32_0_5],
        seq![F32_0_2, F32_MINUS_0_3, F32_0_1, 0u32, 0u32, 0u32, F32_0_5],
    ]
}

/// The pose of the robot's default command frame:
/// `[[0.4, 0.4, 0.1, 0, 0, 0, 0.5], [0.2, -0.4, 0.1, 0, 0, 0, 0.5]]`.
pub open spec fn default_pose() -> Seq<Seq<u32>> {
    seq![
        seq![F32_0_4, F32_0_4, F32_0_1, 0u32, 0u32, 0u32, F32_0_5],
        seq![F32_0_2, F32_MINUS_0_4, F32_0_1, 0u32, 0u32, 0u32, F32_0_5],
    ]
}

/// `n` zero words (the bit pattern of `0.0f32`).
pub open spec fn zeros(n: int) -> Seq<u32> {
    filled(n, 0u32)
}

/// The rows of a matrix as sequences.
pub open spec fn rows_view(m: Seq<Vec<u32>>) -> Seq<Seq<u32>> {
    m.map_values(|r: Vec<u32>| r@)
}

/// `m` has two rows of `cols` words each.
pub open spec fn is_two_rows(m: Seq<Seq<u32>>, cols: int) -> bool {
    m.len() == 2 && m[0].len() == cols && m[1].len() == cols
}

/// The mismatch reported for a matrix that is not two rows of `cols` words:
/// the row count if it is not two, else the first row of the wrong length.
pub open spec fn two_rows_error(m: Seq<Seq<u32>>, cols: int) -> ShapeError {
    if m.len() != 2 {
        ShapeError { expected: 2, found: m.len() as usize }
    } else if m[0].len() != cols {
        ShapeError { expected: cols as usize, found: m[0].len() as usize }
    } else {
        ShapeError { expected: cols as usize, found: m[1].len() as usize }
    }
}

/// The command frame as plain values. Every `u32` is the bit pattern of an
/// `f32`.
pub struct CtrlView {
    pub in_charge: InCharge,
    pub filt_level: FiltLevel,
    pub arm_mode: ArmMode,
    pub finger_mode: FingerMode,
    pub neck_mode: NeckMode,
    pub lumbar_mode: LumbarMode,
    pub arm_cmd: Seq<Seq<u32>>,
    pub arm_fm: Seq<Seq<u32>>,
    pub finger_left: Seq<u32>,
    pub finger_right: Seq<u32>,
    pub neck_cmd: Seq<u32>,
    pub lumbar_cmd: Seq<u32>,
    pub arm_dof: i16,
    pub finger_dof_left: i16,
    pub finger_dof_right: i16,
    pub neck_dof: i16,
    pub lumbar_dof: i16,
}

impl CtrlView {
    /// Every vector and matrix has the size its degrees of freedom fix.
    pub open spec fn wf(self) -> bool {
        &&& self.arm_dof == ARM_POSE_LEN
        &&& self.finger_dof_left >= 0
        &&& self.finger_dof_right >= 0
        &&& self.neck_dof >= 0
        &&& self.lumbar_dof >= 0
        &&& is_two_rows(self.arm_cmd, self.arm_dof as int)
        &&& is_two_rows(self.arm_fm, ARM_FM_LEN as int)
        &&& self.finger_left.len() == self.finger_dof_left
        &&& self.finger_right.len() == self.finger_dof_right
        &&& self.neck_cmd.len() == self.neck_dof
        &&& self.lumbar_cmd.len() == self.lumbar_dof
    }

    /// The same degrees of freedom.
    pub open spec fn same_dof(self, o: CtrlView) -> bool {
        &&& self.arm_dof == o.arm_dof
        &&& self.finger_dof_left == o.finger_dof_left
        &&& self.finger_dof_right == o.finger_dof_right
        &&& self.neck_dof == o.neck_dof
        &&& self.lumbar_dof == o.lumbar_dof
    }

    /// Size of the encoding:
    /// `12 + 4 * (2 * arm_dof + 12 + finger_dof_left + finger_dof_right + neck_dof + lumbar_dof)`.
    pub open spec fn wire_len(self) -> int {
        12 + 4 * (2 * self.arm_dof + 2 * ARM_FM_LEN + self.finger_dof_left + self.finger_dof_right
            + self.neck_dof + self.lumbar_dof)
    }

    /// The six mode selectors, two bytes each.
    pub open spec fn modes_le(self) -> Seq<u8> {
        i16_le(self.in_charge.spec_code()) + i16_le(self.filt_level.spec_code()) + i16_le(
            self.arm_mode.spec_code(),
        ) + i16_le(self.finger_mode.spec_code()) + i16_le(self.neck_mode.spec_code()) + i16_le(
            self.lumbar_mode.spec_code(),
        )
    }

    /// The float fields in order: `arm_cmd` and `arm_fm` row after row, then
    /// `finger_left`, `finger_right`, `neck_cmd` and `lumbar_cmd`, every
    /// word little-endian.
    pub open spec fn payload_le(self) -> Seq<u8> {
        u32s_le(self.arm_cmd[0]) + u32s_le(self.arm_cmd[1]) + u32s_le(self.arm_fm[0]) + u32s_le(
            self.arm_fm[1],
        ) + u32s_le(self.finger_left) + u32s_le(self.finger_right) + u32s_le(self.neck_cmd)
            + u32s_le(self.lumbar_cmd)
    }

    /// The encoding: the mode selectors, then the float fields.
    pub open spec fn wire_bytes(self) -> Seq<u8> {
        self.modes_le() + self.payload_le()
    }

    /// Where `finger_left` starts in the encoding.
    pub open spec fn finger_left_at(self) -> int {
        12 + 8 * self.arm_dof + 8 * ARM_FM_LEN
    }

    /// Each mode selector in `b` names a variant of its enumeration.
    pub open spec fn modes_ok(b: Seq<u8>) -> bool {
        &&& InCharge::spec_from_code(i16_at(b, 0)) is Some
        &&& FiltLevel::spec_from_code(i16_at(b, 2)) is Some
        &&& ArmMode::spec_from_code(i16_at(b, 4)) is Some
        &&& FingerMode::spec_from_code(i16_at(b, 6)) is Some
        &&& NeckMode::spec_from_code(i16_at(b, 8)) is Some
        &&& LumbarMode::spec_from_code(i16_at(b, 10)) is Some
    }

    /// `b` holds a whole frame of these degrees of freedom.
    pub open spec fn accepts(self, b: Seq<u8>) -> bool {
        b.len() >= self.wire_len() && Self::modes_ok(b)
    }

    /// The frame of these degrees of freedom that `b` encodes, read in the
    /// order of `wire_bytes`.
    pub open spec fn decoded_from(self, b: Seq<u8>) -> CtrlView {
        let a = self.arm_dof as int;
        let fm = ARM_FM_LEN as int;
        let fl = self.finger_left_at();
        let fr = fl + 4 * self.finger_dof_left;
        let nk = fr + 4 * self.finger_dof_right;
        let lb = nk + 4 * self.neck_dof;
        CtrlView {
            in_charge: InCharge::spec_from_code(i16_at(b, 0)).unwrap(),
            filt_level: FiltLevel::spec_from_code(i16_at(b, 2)).unwrap(),
            arm_mode: ArmMode::spec_from_code(i16_at(b, 4)).unwrap(),
            finger_mode: FingerMode::spec_from_code(i16_at(b, 6)).unwrap(),
            neck_mode: NeckMode::spec_from_code(i16_at(b, 8)).unwrap(),
            lumbar_mode: LumbarMode::spec_from_code(i16_at(b, 10)).unwrap(),
            arm_cmd: seq![u32s_at(b, 12, a), u32s_at(b, 12 + 4 * a, a)],
            arm_fm: seq![u32s_at(b, 12 + 8 * a, fm), u32s_at(b, 12 + 8 * a + 4 * fm, fm)],
            finger_left: u32s_at(b, fl, self.finger_dof_left as int),
            finger_right: u32s_at(b, fr, self.finger_dof_right as int),
            neck_cmd: u32s_at(b, nk, self.neck_dof as int),
            lumbar_cmd: u32s_at(b, lb, self.lumbar_dof as int),
            ..self
        }
    }
}

/// What a new frame holds: in charge, filter level 2, no arm, hand or lumbar
/// mode, the neck looking at the left hand, the start pose for the arms and
/// zeros elsewhere.
pub open spec fn start_view(
    arm_dof: i16,
    finger_dof_left: i16,
    finger_dof_right: i16,
    neck_dof: i16,
    lumbar_dof: i16,
) -> CtrlView {
    CtrlView {
        in_charge: InCharge::ManiCtrlEnable,
        filt_level: FiltLevel::Level2,
        arm_mode: ArmMode::NoCtrl,
        finger_mode: FingerMode::NoCtrl,
        neck_mode: NeckMode::LookLeftHand,
        lumbar_mode: LumbarMode::NoCtrl,
        arm_cmd: start_pose(),
        arm_fm: seq![zeros(ARM_FM_LEN as int), zeros(ARM_FM_LEN as int)],
        finger_left: zeros(finger_dof_left as int),
        finger_right: zeros(finger_dof_right as int),
        neck_cmd: zeros(neck_dof as int),
        lumbar_cmd: zeros(lumbar_dof as int),
        arm_dof,
        finger_dof_left,
        finger_dof_right,
        neck_dof,
        lumbar_dof,
    }
}

/// What the robot's default frame holds.
pub open spec fn default_view() -> CtrlView {
    CtrlView {
        in_charge: InCharge::ManiCtrlEnable,
        filt_level: FiltLevel::Level1,
        arm_mode: ArmMode::CartesianBodyFrame,
        finger_mode: FingerMode::JntAxisCtrl,
        neck_mode: NeckMode::LookLeftHand,
        lumbar_mode: LumbarMode::NoCtrl,
        arm_cmd: default_pose(),
        ..start_view(
            LOONG_ARM_DOF,
            LOONG_FINGER_DOF_LEFT,
            LOONG_FINGER_DOF_RIGHT,
            LOONG_NECK_DOF,
            LOONG_LUMBAR_DOF,
        )
    }
}

/// The control intent sent to the robot. Every `u32` is the bit pattern of an
/// `f32`.
pub struct CtrlData {
    in_charge: InCharge,
    filt_level: FiltLevel,
    arm_mode: ArmMode,
    finger_mode: FingerMode,
    neck_mode: NeckMode,
    lumbar_mode: LumbarMode,
    arm_cmd: Vec<Vec<u32>>,
    arm_fm: Vec<Vec<u32>>,
    finger_left: Vec<u32>,
    finger_right: Vec<u32>,
    neck_cmd: Vec<u32>,
    lumbar_cmd: Vec<u32>,
    arm_dof: i16,
    finger_dof_left: i16,
    finger_dof_right: i16,
    neck_dof: i16,
    lumbar_dof: i16,
}

impl View for CtrlData {
    type V = CtrlView;

    closed spec fn view(&self) -> CtrlView {
        CtrlView {
            in_charge: self.in_charge,
            filt_level: self.filt_level,
            arm_mode: self.arm_mode,
            finger_mode: self.finger_mode,
            neck_mode: self.neck_mode,
            lumbar_mode: self.lumbar_mode,
            arm_cmd: rows_view(self.arm_cmd@),
            arm_fm: rows_view(self.arm_fm@),
            finger_left: self.finger_left@,
            finger_right: self.finger_right@,
            neck_cmd: self.neck_cmd@,
            lumbar_cmd: self.lumbar_cmd@,
            arm_dof: self.arm_dof,
            finger_dof_left: self.finger_dof_left,
            finger_dof_right: self.finger_dof_right,
            neck_dof: self.neck_dof,
            lumbar_dof: self.lumbar_dof,
        }
    }
}

/// A matrix from two rows.
fn two_rows(a: Vec<u32>, b: Vec<u32>) -> (r: Vec<Vec<u32>>)
    ensures
        rows_view(r@) == seq![a@, b@],
{
    let mut r: Vec<Vec<u32>> = Vec::new();
    r.push(a);
    r.push(b);
    assert(rows_view(r@) =~= seq![a@, b@]);
    r
}

/// A row of seven words.
fn row7(a: u32, b: u32, c: u32, d: u32, e: u32, f: u32, g: u32) -> (r: Vec<u32>)
    ensures
        r@ == seq![a, b, c, d, e, f, g],
{
    let mut r: Vec<u32> = Vec::new();
    r.push(a);
    r.push(b);
    r.push(c);
    r.push(d);
    r.push(e);
    r.push(f);
    r.push(g);
    assert(r@ =~= seq![a, b, c, d, e, f, g]);
    r
}

/// A copy of a row.
fn copy_row(v: &Vec<u32>) -> (r: Vec<u32>)
    ensures
        r@ == v@,
{
    let mut r: Vec<u32> = Vec::new();
    let mut i: usize = 0;
    while i < v.len()
        invariant
            i <= v@.len(),
            r@ == v@.take(i as int),
        decreases v@.len() - i,
    {
        r.push(v[i]);
        assert(r@ =~= v@.take(i + 1));
        i = i + 1;
    }
    assert(v@.take(v@.len() as int) =~= v@);
    r
}

/// Checks that `m` has two rows of `cols` words each.
fn check_two_rows(m: &Vec<Vec<u32>>, cols: usize) -> (r: Result<(), ShapeError>)
    ensures
        is_two_rows(rows_view(m@), cols as int) ==> r == Ok::<(), ShapeError>(()),
        !is_two_rows(rows_view(m@), cols as int) ==> r == Err::<(), ShapeError>(
            two_rows_error(rows_view(m@), cols as int),
        ),
{
    if m.len() != 2 {
        return Err(ShapeError { expected: 2, found: m.len() });
    }
    if m[0].len() != cols {
        return Err(ShapeError { expected: cols, found: m[0].len() });
    }
    if m[1].len() != cols {
        return Err(ShapeError { expected: cols, found: m[1].len() });
    }
    Ok(())
}

impl CtrlData {
    /// A frame with the given degrees of freedom, holding `start_view`. The
    /// start pose has `ARM_POSE_LEN` columns; any other `arm_dof` is refused.
    pub fn new(
        arm_dof: i16,
        finger_dof_left: i16,
        finger_dof_right: i16,
        neck_dof: i16,
        lumbar_dof: i16,
    ) -> (r: Result<Self, ShapeError>)
        requires
            finger_dof_left >= 0,
            finger_dof_right >= 0,
            neck_dof >= 0,
            lumbar_dof >= 0,
        ensures
            arm_dof == ARM_POSE_LEN ==> (r matches Ok(f) && f@.wf() && f@ == start_view(
                arm_dof,
                finger_dof_left,
                finger_dof_right,
                neck_dof,
                lumbar_dof,
            )),
            arm_dof != ARM_POSE_LEN ==> r == Err::<Self, ShapeError>(
                ShapeError { expected: ARM_POSE_LEN as usize, found: arm_dof as usize },
            ),
    {
        if arm_dof != ARM_POSE_LEN {
            return Err(ShapeError { expected: ARM_POSE_LEN as usize, found: arm_dof as usize });
        }
        Ok(Self::start(arm_dof, finger_dof_left, finger_dof_right, neck_dof, lumbar_dof))
    }

    fn start(
        arm_dof: i16,
        finger_dof_left: i16,
        finger_dof_right: i16,
        neck_dof: i16,
        lumbar_dof: i16,
    ) -> (r: Self)
        requires
            arm_dof == ARM_POSE_LEN,
            finger_dof_left >= 0,
            finger_dof_right >= 0,
            neck_dof >= 0,
            lumbar_dof >= 0,
        ensures
            r@.wf(),
            r@ == start_view(arm_dof, finger_dof_left, finger_dof_right, neck_dof, lumbar_dof),
    {
        let arm_cmd = two_rows(
            row7(F32_0_4, F32_0_3, F32_0_1, 0, 0, 0, F32_0_5),
            row7(F32_0_2, F32_MINUS_0_3, F32_0_1, 0, 0, 0, F32_0_5),
        );
        let arm_fm = two_rows(filled_vec(ARM_FM_LEN, 0u32), filled_vec(ARM_FM_LEN, 0u32));
        let f = CtrlData {
            in_charge: InCharge::ManiCtrlEnable,
            filt_level: FiltLevel::Level2,
            arm_mode: ArmMode::NoCtrl,
            finger_mode: FingerMode::NoCtrl,
            neck_mode: NeckMode::LookLeftHand,
            lumbar_mode: LumbarMode::NoCtrl,
            arm_cmd,
            arm_fm,
            finger_left: filled_vec(finger_dof_left as usize, 0u32),
            finger_right: filled_vec(finger_dof_right as usize, 0u32),
            neck_cmd: filled_vec(neck_dof as usize, 0u32),
            lumbar_cmd: filled_vec(lumbar_dof as usize, 0u32),
            arm_dof,
            finger_dof_left,
            finger_dof_right,
            neck_dof,
            lumbar_dof,
        };
        f
    }

    /// The robot's default frame: its own degrees of freedom, in charge,
    /// filter level 1, Cartesian arm control in the body frame, joint control
    /// of the hands, the neck looking at the left hand, no lumbar mode, the
    /// default pose for the arms and zeros elsewhere.
    pub fn default_loong_ctrl_data() -> (r: Self)
        ensures
            r@.wf(),
            r@ == default_view(),
    {
        let mut f = Self::start(
            LOONG_ARM_DOF,
            LOONG_FINGER_DOF_LEFT,
            LOONG_FINGER_DOF_RIGHT,
            LOONG_NECK_DOF,
            LOONG_LUMBAR_DOF,
        );
        f.set_in_charge(InCharge::ManiCtrlEnable).set_filt_level(FiltLevel::Level1).set_arm_mode(
            ArmMode::CartesianBodyFrame,
        ).set_finger_mode(FingerMode::JntAxisCtrl).set_neck_mode(NeckMode::LookLeftHand).set_lumbar_mode(
            LumbarMode::NoCtrl,
        );
        let pose = two_rows(
            row7(F32_0_4, F32_0_4, F32_0_1, 0, 0, 0, F32_0_5),
            row7(F32_0_2, F32_MINUS_0_4, F32_0_1, 0, 0, 0, F32_0_5),
        );
        let _ = f.set_arm_cmd(pose);
        f
    }

    pub fn set_in_charge(&mut self, in_charge: InCharge) -> (r: &mut Self)
        ensures
            r@ == (CtrlView { in_charge, ..old(self)@ }),
            *final(self) == *final(r),
    {
        self.in_charge = in_charge;
        self
    }

    pub fn set_filt_level(&mut self, filt_level: FiltLevel) -> (r: &mut Self)
        ensures
            r@ == (CtrlView { filt_level, ..old(self)@ }),
            *final(self) == *final(r),
    {
        self.filt_level = filt_level;
        self
    }

    pub fn set_arm_mode(&mut self, arm_mode: ArmMode) -> (r: &mut Self)
        ensures
            r@ == (CtrlView { arm_mode, ..old(self)@ }),
            *final(self) == *final(r),
    {
        self.arm_mode = arm_mode;
        self
    }

    pub fn set_finger_mode(&mut self, finger_mode: FingerMode) -> (r: &mut Self)
        ensures
            r@ == (CtrlView { finger_mode, ..old(self)@ }),
            *final(self) == *final(r),
    {
        self.finger_mode = finger_mode;
        self
    }

    pub fn set_neck_mode(&mut self, neck_mode: NeckMode) -> (r: &mut Self)
        ensures
            r@ == (CtrlView { neck_mode, ..old(self)@ }),
            *final(self) == *final(r),
    {
        self.neck_mode = neck_mode;
        self
    }

    pub fn set_lumbar_mode(&mut self, lumbar_mode: LumbarMode) -> (r: &mut Self)
        ensures
            r@ == (CtrlView { lumbar_mode, ..old(self)@ }),
            *final(self) == *final(r),
    {
        self.lumbar_mode = lumbar_mode;
        self
    }

    /// Replaces `arm_cmd`, which must have two rows of `arm_dof` words each;
    /// otherwise the mismatch is reported and the frame is left as it was.
    pub fn set_arm_cmd(&mut self, arm_cmd: Vec<Vec<u32>>) -> (r: Result<&mut Self, ShapeError>)
        requires
            old(self)@.wf(),
        ensures
            is_two_rows(rows_view(arm_cmd@), old(self)@.arm_dof as int) ==> (r matches Ok(s) && s@ == (CtrlView {
                arm_cmd: rows_view(arm_cmd@),
                ..old(self)@
            }) && *final(self) == *final(s)),
            !is_two_rows(rows_view(arm_cmd@), old(self)@.arm_dof as int) ==> (r matches Err(e) && e
                == two_rows_error(rows_view(arm_cmd@), old(self)@.arm_dof as int) && *final(self) == *old(self)),
    {
        match check_two_rows(&arm_cmd, self.arm_dof as usize) {
            Ok(()) => {
                self.arm_cmd = arm_cmd;
                Ok(self)
            },
            Err(e) => Err(e),
        }
    }

    /// Replaces `arm_fm`, which must have two rows of `ARM_FM_LEN` words each;
    /// otherwise the mismatch is reported and the frame is left as it was.
    pub fn set_arm_fm(&mut self, arm_fm: Vec<Vec<u32>>) -> (r: Result<&mut Self, ShapeError>)
        requires
            old(self)@.wf(),
        ensures
            is_two_rows(rows_view(arm_fm@), ARM_FM_LEN as int) ==> (r matches Ok(s) && s@ == (CtrlView {
                arm_fm: rows_view(arm_fm@),
                ..old(self)@
            }) && *final(self) == *final(s)),
            !is_two_rows(rows_view(arm_fm@), ARM_FM_LEN as int) ==> (r matches Err(e) && e
                == two_rows_error(rows_view(arm_fm@), ARM_FM_LEN as int) && *final(self) == *old(self)),
    {
        match check_two_rows(&arm_fm, ARM_FM_LEN) {
            Ok(()) => {
                self.arm_fm = arm_fm;
                Ok(self)
            },
            Err(e) => Err(e),
        }
    }

    /// Replaces `finger_left`, which must hold `finger_dof_left` words; otherwise the
    /// mismatch is reported and the frame is left as it was.
    pub fn set_finger_left(&mut self, finger_left: Vec<u32>) -> (r: Result<&mut Self, ShapeError>)
        requires
            old(self)@.wf(),
        ensures
            finger_left@.len() == old(self)@.finger_dof_left ==> (r matches Ok(s) && s@ == (CtrlView {
                finger_left: finger_left@,
                ..old(self)@
            }) && *final(self) == *final(s)),
            finger_left@.len() != old(self)@.finger_dof_left ==> (r matches Err(e) && e == ShapeError {
                expected: old(self)@.finger_dof_left as usize,
                found: finger_left@.len() as usize,
            } && *final(self) == *old(self)),
    {
        if finger_left.len() != self.finger_dof_left as usize {
            return Err(ShapeError { expected: self.finger_dof_left as usize, found: finger_left.len() });
        }
        self.finger_left = finger_left;
        Ok(self)
    }

    /// Replaces `finger_right`, which must hold `finger_dof_right` words; otherwise the
    /// mismatch is reported and the frame is left as it was.
    pub fn set_finger_right(&mut self, finger_right: Vec<u32>) -> (r: Result<&mut Self, ShapeError>)
        requires
            old(self)@.wf(),
        ensures
            finger_right@.len() == old(self)@.finger_dof_right ==> (r matches Ok(s) && s@ == (CtrlView {
                finger_right: finger_right@,
                ..old(self)@
            }) && *final(self) == *final(s)),
            finger_right@.len() != old(self)@.finger_dof_right ==> (r matches Err(e) && e == ShapeError {
                expected: old(self)@.finger_dof_right as usize,
                found: finger_right@.len() as usize,
            } && *final(self) == *old(self)),
    {
        if finger_right.len() != self.finger_dof_right as usize {
            return Err(ShapeError { expected: self.finger_dof_right as usize, found: finger_right.len() });
        }
        self.finger_right = finger_right;
        Ok(self)
    }

    /// Replaces `neck_cmd`, which must hold `neck_dof` words; otherwise the
    /// mismatch is reported and the frame is left as it was.
    pub fn set_neck_cmd(&mut self, neck_cmd: Vec<u32>) -> (r: Result<&mut Self, ShapeError>)
        requires
            old(self)@.wf(),
        ensures
            neck_cmd@.len() == old(self)@.neck_dof ==> (r matches Ok(s) && s@ == (CtrlView {
                neck_cmd: neck_cmd@,
                ..old(self)@
            }) && *final(self) == *final(s)),
            neck_cmd@.len() != old(self)@.neck_dof ==> (r matches Err(e) && e == ShapeError {
                expected: old(self)@.neck_dof as usize,
                found: neck_cmd@.len() as usize,
            } && *final(self) == *old(self)),
    {
        if neck_cmd.len() != self.neck_dof as usize {
            return Err(ShapeError { expected: self.neck_dof as usize, found: neck_cmd.len() });
        }
        self.neck_cmd = neck_cmd;
        Ok(self)
    }

    /// Replaces `lumbar_cmd`, which must hold `lumbar_dof` words; otherwise the
    /// mismatch is reported and the frame is left as it was.
    pub fn set_lumbar_cmd(&mut self, lumbar_cmd: Vec<u32>) -> (r: Result<&mut Self, ShapeError>)
        requires
            old(self)@.wf(),
        ensures
            lumbar_cmd@.len() == old(self)@.lumbar_dof ==> (r matches Ok(s) && s@ == (CtrlView {
                lumbar_cmd: lumbar_cmd@,
                ..old(self)@
            }) && *final(self) == *final(s)),
            lumbar_cmd@.len() != old(self)@.lumbar_dof ==> (r matches Err(e) && e == ShapeError {
                expected: old(self)@.lumbar_dof as usize,
                found: lumbar_cmd@.len() as usize,
            } && *final(self) == *old(self)),
    {
        if lumbar_cmd.len() != self.lumbar_dof as usize {
            return Err(ShapeError { expected: self.lumbar_dof as usize, found: lumbar_cmd.len() });
        }
        self.lumbar_cmd = lumbar_cmd;
        Ok(self)
    }
}

impl CtrlData {
    pub fn in_charge(&self) -> (r: InCharge)
        ensures
            r == self@.in_charge,
    {
        self.in_charge
    }

    pub fn filt_level(&self) -> (r: FiltLevel)
        ensures
            r == self@.filt_level,
    {
        self.filt_level
    }

    pub fn arm_mode(&self) -> (r: ArmMode)
        ensures
            r == self@.arm_mode,
    {
        self.arm_mode
    }

    pub fn finger_mode(&self) -> (r: FingerMode)
        ensures
            r == self@.finger_mode,
    {
        self.finger_mode
    }

    pub fn neck_mode(&self) -> (r: NeckMode)
        ensures
            r == self@.neck_mode,
    {
        self.neck_mode
    }

    pub fn lumbar_mode(&self) -> (r: LumbarMode)
        ensures
            r == self@.lumbar_mode,
    {
        self.lumbar_mode
    }

    pub fn arm_cmd(&self) -> (r: &Vec<Vec<u32>>)
        ensures
            rows_view(r@) == self@.arm_cmd,
    {
        &self.arm_cmd
    }

    pub fn arm_fm(&self) -> (r: &Vec<Vec<u32>>)
        ensures
            rows_view(r@) == self@.arm_fm,
    {
        &self.arm_fm
    }

    pub fn finger_left(&self) -> (r: &Vec<u32>)
        ensures
            r@ == self@.finger_left,
    {
        &self.finger_left
    }

    pub fn finger_right(&self) -> (r: &Vec<u32>)
        ensures
            r@ == self@.finger_right,
    {
        &self.finger_right
    }

    pub fn neck_cmd(&self) -> (r: &Vec<u32>)
        ensures
            r@ == self@.neck_cmd,
    {
        &self.neck_cmd
    }

    pub fn lumbar_cmd(&self) -> (r: &Vec<u32>)
        ensures
            r@ == self@.lumbar_cmd,
    {
        &self.lumbar_cmd
    }

    pub fn arm_dof(&self) -> (r: i16)
        ensures
            r == self@.arm_dof,
    {
        self.arm_dof
    }

    pub fn finger_dof_left(&self) -> (r: i16)
        ensures
            r == self@.finger_dof_left,
    {
        self.finger_dof_left
    }

    pub fn finger_dof_right(&self) -> (r: i16)
        ensures
            r == self@.finger_dof_right,
    {
        self.finger_dof_right
    }

    pub fn neck_dof(&self) -> (r: i16)
        ensures
            r == self@.neck_dof,
    {
        self.neck_dof
    }

    pub fn lumbar_dof(&self) -> (r: i16)
        ensures
            r == self@.lumbar_dof,
    {
        self.lumbar_dof
    }
}

pub proof fn lemma_wire_len(v: CtrlView)
    requires
        v.wf(),
    ensures
        v.wire_bytes().len() == v.wire_len(),
{
    lemma_u32s_le_len(v.arm_cmd[0]);
    lemma_u32s_le_len(v.arm_cmd[1]);
    lemma_u32s_le_len(v.arm_fm[0]);
    lemma_u32s_le_len(v.arm_fm[1]);
    lemma_u32s_le_len(v.finger_left);
    lemma_u32s_le_len(v.finger_right);
    lemma_u32s_le_len(v.neck_cmd);
    lemma_u32s_le_len(v.lumbar_cmd);
}

impl CtrlData {
    /// Encodes the frame: the six mode selectors as 16-bit ordinals, then
    /// `arm_cmd` and `arm_fm` row after row, then `finger_left`,
    /// `finger_right`, `neck_cmd` and `lumbar_cmd`, all little-endian.
    pub fn pack_data(&self) -> (r: Vec<u8>)
        requires
            self@.wf(),
        ensures
            r@ == self@.wire_bytes(),
            r@.len() == self@.wire_len(),
    {
        let mut buf: Vec<u8> = Vec::new();
        push_i16(&mut buf, self.in_charge.code());
        push_i16(&mut buf, self.filt_level.code());
        push_i16(&mut buf, self.arm_mode.code());
        push_i16(&mut buf, self.finger_mode.code());
        push_i16(&mut buf, self.neck_mode.code());
        push_i16(&mut buf, self.lumbar_mode.code());
        push_u32s(&mut buf, &self.arm_cmd[0]);
        push_u32s(&mut buf, &self.arm_cmd[1]);
        push_u32s(&mut buf, &self.arm_fm[0]);
        push_u32s(&mut buf, &self.arm_fm[1]);
        push_u32s(&mut buf, &self.finger_left);
        push_u32s(&mut buf, &self.finger_right);
        push_u32s(&mut buf, &self.neck_cmd);
        push_u32s(&mut buf, &self.lumbar_cmd);
        assert(buf@ =~= self@.wire_bytes());
        proof {
            lemma_wire_len(self@);
        }
        buf
    }
}

impl CtrlData {
    fn wire_len_usize(&self) -> (r: usize)
        requires
            self@.wf(),
        ensures
            r == self@.wire_len(),
    {
        let a = self.arm_dof as usize;
        12 + 4 * (2 * a + 2 * ARM_FM_LEN + self.finger_dof_left as usize
            + self.finger_dof_right as usize + self.neck_dof as usize + self.lumbar_dof as usize)
    }

    /// Reads a frame of this frame's degrees of freedom from `buf`, laid out
    /// as `pack_data` writes it; bytes past the frame are ignored. On success
    /// every field is overwritten; on failure the frame is left as it was.
    pub fn unpack_data(&mut self, buf: &[u8]) -> (r: Result<(), DecodeError>)
        requires
            old(self)@.wf(),
        ensures
            final(self)@.wf(),
            buf@.len() < old(self)@.wire_len() ==> r == Err::<(), DecodeError>(
                DecodeError::Truncated,
            ) && *final(self) == *old(self),
            buf@.len() >= old(self)@.wire_len() && !CtrlView::modes_ok(buf@) ==> r == Err::<
                (),
                DecodeError,
            >(DecodeError::UnknownMode) && *final(self) == *old(self),
            old(self)@.accepts(buf@) ==> r == Ok::<(), DecodeError>(()) && final(self)@ == old(
                self,
            )@.decoded_from(buf@),
    {
        let total = self.wire_len_usize();
        if buf.len() < total {
            return Err(DecodeError::Truncated);
        }
        let in_charge = InCharge::from_code(read_i16(buf, 0));
        let filt_level = FiltLevel::from_code(read_i16(buf, 2));
        let arm_mode = ArmMode::from_code(read_i16(buf, 4));
        let finger_mode = FingerMode::from_code(read_i16(buf, 6));
        let neck_mode = NeckMode::from_code(read_i16(buf, 8));
        let lumbar_mode = LumbarMode::from_code(read_i16(buf, 10));
        match (in_charge, filt_level, arm_mode, finger_mode, neck_mode, lumbar_mode) {
            (Some(ic), Some(fl), Some(am), Some(fm), Some(nm), Some(lm)) => {
                let a = self.arm_dof as usize;
                let fm_at = 12 + 8 * a;
                let fl_at = fm_at + 8 * ARM_FM_LEN;
                let fr_at = fl_at + 4 * self.finger_dof_left as usize;
                let nk_at = fr_at + 4 * self.finger_dof_right as usize;
                let lb_at = nk_at + 4 * self.neck_dof as usize;
                let arm_cmd = two_rows(read_u32s(buf, 12, a), read_u32s(buf, 12 + 4 * a, a));
                let arm_fm = two_rows(
                    read_u32s(buf, fm_at, ARM_FM_LEN),
                    read_u32s(buf, fm_at + 4 * ARM_FM_LEN, ARM_FM_LEN),
                );
                self.finger_left = read_u32s(buf, fl_at, self.finger_dof_left as usize);
                self.finger_right = read_u32s(buf, fr_at, self.finger_dof_right as usize);
                self.neck_cmd = read_u32s(buf, nk_at, self.neck_dof as usize);
                self.lumbar_cmd = read_u32s(buf, lb_at, self.lumbar_dof as usize);
                self.arm_cmd = arm_cmd;
                self.arm_fm = arm_fm;
                self.in_charge = ic;
                self.filt_level = fl;
                self.arm_mode = am;
                self.finger_mode = fm;
                self.neck_mode = nm;
                self.lumbar_mode = lm;
                Ok(())
            },
            _ => Err(DecodeError::UnknownMode),
        }
    }
}

/// The mode selectors read back from an encoding are the frame's.
proof fn lemma_modes_round_trip(sent: CtrlView, body: Seq<u8>)
    ensures
        InCharge::spec_from_code(i16_at(sent.modes_le() + body, 0)) == Some(sent.in_charge),
        FiltLevel::spec_from_code(i16_at(sent.modes_le() + body, 2)) == Some(sent.filt_level),
        ArmMode::spec_from_code(i16_at(sent.modes_le() + body, 4)) == Some(sent.arm_mode),
        FingerMode::spec_from_code(i16_at(sent.modes_le() + body, 6)) == Some(sent.finger_mode),
        NeckMode::spec_from_code(i16_at(sent.modes_le() + body, 8)) == Some(sent.neck_mode),
        LumbarMode::spec_from_code(i16_at(sent.modes_le() + body, 10)) == Some(sent.lumbar_mode),
        sent.modes_le().len() == 12,
{
    let c0 = sent.in_charge.spec_code();
    let c1 = sent.filt_level.spec_code();
    let c2 = sent.arm_mode.spec_code();
    let c3 = sent.finger_mode.spec_code();
    let c4 = sent.neck_mode.spec_code();
    let c5 = sent.lumbar_mode.spec_code();
    let q1 = i16_le(c0);
    let q2 = q1 + i16_le(c1);
    let q3 = q2 + i16_le(c2);
    let q4 = q3 + i16_le(c3);
    let q5 = q4 + i16_le(c4);
    let m = q5 + i16_le(c5);
    lemma_i16_last(Seq::empty(), c0);
    assert(Seq::<u8>::empty() + i16_le(c0) =~= q1);
    lemma_i16_last(q1, c1);
    lemma_i16_last(q2, c2);
    lemma_i16_last(q3, c3);
    lemma_i16_last(q4, c4);
    lemma_i16_last(q5, c5);
    lemma_i16_at_prefix(m, body, 0);
    lemma_i16_at_prefix(m, body, 2);
    lemma_i16_at_prefix(m, body, 4);
    lemma_i16_at_prefix(m, body, 6);
    lemma_i16_at_prefix(m, body, 8);
    lemma_i16_at_prefix(m, body, 10);
    lemma_i16_at_prefix(q5, i16_le(c5), 0);
    lemma_i16_at_prefix(q5, i16_le(c5), 2);
    lemma_i16_at_prefix(q5, i16_le(c5), 4);
    lemma_i16_at_prefix(q5, i16_le(c5), 6);
    lemma_i16_at_prefix(q5, i16_le(c5), 8);
    lemma_i16_at_prefix(q4, i16_le(c4), 0);
    lemma_i16_at_prefix(q4, i16_le(c4), 2);
    lemma_i16_at_prefix(q4, i16_le(c4), 4);
    lemma_i16_at_prefix(q4, i16_le(c4), 6);
    lemma_i16_at_prefix(q3, i16_le(c3), 0);
    lemma_i16_at_prefix(q3, i16_le(c3), 2);
    lemma_i16_at_prefix(q3, i16_le(c3), 4);
    lemma_i16_at_prefix(q2, i16_le(c2), 0);
    lemma_i16_at_prefix(q2, i16_le(c2), 2);
    lemma_i16_at_prefix(q1, i16_le(c1), 0);
}

/// The float fields read back from their encoding are the frame's.
proof fn lemma_payload_round_trip(sent: CtrlView)
    requires
        sent.wf(),
    ensures
        ({
            let b = sent.payload_le();
            let a = sent.arm_dof as int;
            let fm = ARM_FM_LEN as int;
            let fl = 8 * a + 8 * fm;
            let fr = fl + 4 * sent.finger_dof_left;
            let nk = fr + 4 * sent.finger_dof_right;
            let lb = nk + 4 * sent.neck_dof;
            &&& u32s_at(b, 0, a) == sent.arm_cmd[0]
            &&& u32s_at(b, 4 * a, a) == sent.arm_cmd[1]
            &&& u32s_at(b, 8 * a, fm) == sent.arm_fm[0]
            &&& u32s_at(b, 8 * a + 4 * fm, fm) == sent.arm_fm[1]
            &&& u32s_at(b, fl, sent.finger_dof_left as int) == sent.finger_left
            &&& u32s_at(b, fr, sent.finger_dof_right as int) == sent.finger_right
            &&& u32s_at(b, nk, sent.neck_dof as int) == sent.neck_cmd
            &&& u32s_at(b, lb, sent.lumbar_dof as int) == sent.lumbar_cmd
            &&& b.len() == lb + 4 * sent.lumbar_dof
        }),
{
    let w0 = u32s_le(sent.arm_cmd[0]);
    let w1 = u32s_le(sent.arm_cmd[1]);
    let w2 = u32s_le(sent.arm_fm[0]);
    let w3 = u32s_le(sent.arm_fm[1]);
    let w4 = u32s_le(sent.finger_left);
    let w5 = u32s_le(sent.finger_right);
    let w6 = u32s_le(sent.neck_cmd);
    let w7 = u32s_le(sent.lumbar_cmd);
    let pre1 = w0;
    let pre2 = pre1 + w1;
    let pre3 = pre2 + w2;
    let pre4 = pre3 + w3;
    let pre5 = pre4 + w4;
    let pre6 = pre5 + w5;
    let pre7 = pre6 + w6;
    lemma_u32s_last(Seq::empty(), sent.arm_cmd[0]);
    assert(Seq::<u8>::empty() + w0 =~= w0);
    lemma_u32s_last(pre1, sent.arm_cmd[1]);
    lemma_u32s_last(pre2, sent.arm_fm[0]);
    lemma_u32s_last(pre3, sent.arm_fm[1]);
    lemma_u32s_last(pre4, sent.finger_left);
    lemma_u32s_last(pre5, sent.finger_right);
    lemma_u32s_last(pre6, sent.neck_cmd);
    lemma_u32s_last(pre7, sent.lumbar_cmd);

    let a = sent.arm_dof as int;
    let fm = ARM_FM_LEN as int;
    let fl = sent.finger_dof_left as int;
    let fr = sent.finger_dof_right as int;
    let nk = sent.neck_dof as int;
    // Each segment is read inside the prefix that it ends.
    lemma_u32s_at_prefix(pre7, w7, pre6.len() as int, nk);
    lemma_u32s_at_prefix(pre7, w7, pre5.len() as int, fr);
    lemma_u32s_at_prefix(pre6, w6, pre5.len() as int, fr);
    lemma_u32s_at_prefix(pre7, w7, pre4.len() as int, fl);
    lemma_u32s_at_prefix(pre6, w6, pre4.len() as int, fl);
    lemma_u32s_at_prefix(pre5, w5, pre4.len() as int, fl);
    lemma_u32s_at_prefix(pre7, w7, pre3.len() as int, fm);
    lemma_u32s_at_prefix(pre6, w6, pre3.len() as int, fm);
    lemma_u32s_at_prefix(pre5, w5, pre3.len() as int, fm);
    lemma_u32s_at_prefix(pre4, w4, pre3.len() as int, fm);
    lemma_u32s_at_prefix(pre7, w7, pre2.len() as int, fm);
    lemma_u32s_at_prefix(pre6, w6, pre2.len() as int, fm);
    lemma_u32s_at_prefix(pre5, w5, pre2.len() as int, fm);
    lemma_u32s_at_prefix(pre4, w4, pre2.len() as int, fm);
    lemma_u32s_at_prefix(pre3, w3, pre2.len() as int, fm);
    lemma_u32s_at_prefix(pre7, w7, pre1.len() as int, a);
    lemma_u32s_at_prefix(pre6, w6, pre1.len() as int, a);
    lemma_u32s_at_prefix(pre5, w5, pre1.len() as int, a);
    lemma_u32s_at_prefix(pre4, w4, pre1.len() as int, a);
    lemma_u32s_at_prefix(pre3, w3, pre1.len() as int, a);
    lemma_u32s_at_prefix(pre2, w2, pre1.len() as int, a);
    lemma_u32s_at_prefix(pre7, w7, 0, a);
    lemma_u32s_at_prefix(pre6, w6, 0, a);
    lemma_u32s_at_prefix(pre5, w5, 0, a);
    lemma_u32s_at_prefix(pre4, w4, 0, a);
    lemma_u32s_at_prefix(pre3, w3, 0, a);
    lemma_u32s_at_prefix(pre2, w2, 0, a);
    lemma_u32s_at_prefix(pre1, w1, 0, a);
}

/// Decoding an encoded frame with a reader of the same degrees of freedom
/// accepts the bytes and gives back every field exactly, the float bit
/// patterns included.
pub proof fn lemma_round_trip(sent: CtrlView, reader: CtrlView)
    requires
        sent.wf(),
        reader.wf(),
        sent.same_dof(reader),
    ensures
        reader.accepts(sent.wire_bytes()),
        reader.decoded_from(sent.wire_bytes()) == sent,
{
    let m = sent.modes_le();
    let body = sent.payload_le();
    let b = sent.wire_bytes();
    lemma_modes_round_trip(sent, body);
    lemma_payload_round_trip(sent);
    let a = sent.arm_dof as int;
    let fm = ARM_FM_LEN as int;
    let fl = 8 * a + 8 * fm;
    let fr = fl + 4 * sent.finger_dof_left;
    let nk = fr + 4 * sent.finger_dof_right;
    let lb = nk + 4 * sent.neck_dof;
    lemma_u32s_at_shift(m, body, 0, a);
    lemma_u32s_at_shift(m, body, 4 * a, a);
    lemma_u32s_at_shift(m, body, 8 * a, fm);
    lemma_u32s_at_shift(m, body, 8 * a + 4 * fm, fm);
    lemma_u32s_at_shift(m, body, fl, sent.finger_dof_left as int);
    lemma_u32s_at_shift(m, body, fr, sent.finger_dof_right as int);
    lemma_u32s_at_shift(m, body, nk, sent.neck_dof as int);
    lemma_u32s_at_shift(m, body, lb, sent.lumbar_dof as int);
    let d = reader.decoded_from(b);
    assert(d.arm_cmd =~= sent.arm_cmd);
    assert(d.arm_fm =~= sent.arm_fm);
}

/// The encoding is a function of the frame's contents: encoding an
/// unmodified frame twice gives the same bytes.
pub proof fn lemma_encode_deterministic(f: CtrlView, first: Seq<u8>, second: Seq<u8>)
    requires
        first == f.wire_bytes(),
        second == f.wire_bytes(),
    ensures
        first == second,
{
}

} // verus!
