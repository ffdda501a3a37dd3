//! The robot's degrees of freedom and the peer it is reached at.
use vstd::prelude::*;

verus! {

/// Number of joints reported in telemetry.
pub const LOONG_JNT_NUM: i16 = 19;

/// Pose components per arm end-effector.
pub const LOONG_ARM_DOF: i16 = 7;

/// Degrees of freedom of the left hand.
pub const LOONG_FINGER_DOF_LEFT: i16 = 1;

/// Degrees of freedom of the right hand.
pub const LOONG_FINGER_DOF_RIGHT: i16 = 1;

/// Degrees of freedom of the neck.
pub const LOONG_NECK_DOF: i16 = 2;

/// Degrees of freedom of the lumbar joint.
pub const LOONG_LUMBAR_DOF: i16 = 3;

/// The configuration both ends of the link agree on out of band.
pub struct LoongManiParam {
    jnt_num: i16,
    arm_dof: i16,
    finger_dof_left: i16,
    finger_dof_right: i16,
    neck_dof: i16,
    lumbar_dof: i16,
    target_addr: String,
}

pub struct ParamView {
    pub jnt_num: i16,
    pub arm_dof: i16,
    pub finger_dof_left: i16,
    pub finger_dof_right: i16,
    pub neck_dof: i16,
    pub lumbar_dof: i16,
    pub target_addr: Seq<char>,
}

impl View for LoongManiParam {
    type V = ParamView;

    closed spec fn view(&self) -> ParamView {
        ParamView {
            jnt_num: self.jnt_num,
            arm_dof: self.arm_dof,
            finger_dof_left: self.finger_dof_left,
            finger_dof_right: self.finger_dof_right,
            neck_dof: self.neck_dof,
            lumbar_dof: self.lumbar_dof,
            target_addr: self.target_addr@,
        }
    }
}

impl LoongManiParam {
    pub fn new(
        jnt_num: i16,
        arm_dof: i16,
        finger_dof_left: i16,
        finger_dof_right: i16,
        neck_dof: i16,
        lumbar_dof: i16,
        target_addr: String,
    ) -> (r: Self)
        ensures
            r@ == (ParamView {
                jnt_num,
                arm_dof,
                finger_dof_left,
                finger_dof_right,
                neck_dof,
                lumbar_dof,
                target_addr: target_addr@,
            }),
    {
        LoongManiParam {
            jnt_num,
            arm_dof,
            finger_dof_left,
            finger_dof_right,
            neck_dof,
            lumbar_dof,
            target_addr,
        }
    }

    pub fn jnt_num(&self) -> (r: i16)
        ensures
            r == self@.jnt_num,
    {
        self.jnt_num
    }

    pub fn arm_dof(&self) -> (r: i16)
        ensures
            r == self@.arm_dof,
    {
        self.arm_dof
    }

    pub fn finger_dof_left(&self) -> (r: i16)
        ensures
            r == self@.finger_dof_left,
    {
        self.finger_dof_left
    }

    pub fn finger_dof_right(&self) -> (r: i16)
        ensures
            r == self@.finger_dof_right,
    {
        self.finger_dof_right
    }

    pub fn neck_dof(&self) -> (r: i16)
        ensures
            r == self@.neck_dof,
    {
        self.neck_dof
    }

    pub fn lumbar_dof(&self) -> (r: i16)
        ensures
            r == self@.lumbar_dof,
    {
        self.lumbar_dof
    }

    /// The peer's address, as written in the configuration.
    pub fn target_addr(&self) -> (r: &str)
        ensures
            r@ == self@.target_addr,
    {
        self.target_addr.as_str()
    }
}

} // verus!
