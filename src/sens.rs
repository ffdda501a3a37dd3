//! The telemetry frame: the robot's sensed state, decoded from its fixed
//! little-endian layout.
use crate::error::DecodeError;
use crate::param::{LOONG_FINGER_DOF_LEFT, LOONG_FINGER_DOF_RIGHT, LOONG_JNT_NUM};
use crate::wire::{
    i16_at, i16s_at, i32_at, read_i16, read_i16s, read_i32, read_u32, read_u32s, read_u64,
    u32s_at, u64_at, filled, filled_vec,
};
use vstd::prelude::*;

verus! {

/// Size of the plan-name slot, in bytes.
pub const PLAN_NAME_LEN: usize = 16;

/// What `String::from_utf8_lossy` makes of a byte sequence: the text it
/// encodes, with each invalid sequence replaced by U+FFFD.
pub uninterp spec fn lossy_utf8(b: Seq<u8>) -> Seq<char>;

/// Relies on `String::from_utf8_lossy`: decodes the `n` bytes at `at` as
/// UTF-8, substituting invalid sequences.
#[verifier::external_body]
fn utf8_lossy(b: &[u8], at: usize, n: usize) -> (r: String)
    requires
        at + n <= b@.len(),
    ensures
        r@ == lossy_utf8(b@.subrange(at as int, at + n)),
{
    String::from_utf8_lossy(&b[at..at + n]).into_owned()
}

/// The decimal digits of `n`, most significant first.
pub open spec fn digits(n: nat) -> Seq<char>
    decreases n,
{
    if n < 10 {
        seq![(n + 48) as char]
    } else {
        digits(n / 10) + seq![((n % 10) + 48) as char]
    }
}

/// `n` written in decimal, with a leading `-` when it is negative.
pub open spec fn decimal(n: int) -> Seq<char> {
    if n < 0 {
        seq!['-'] + digits((-n) as nat)
    } else {
        digits(n as nat)
    }
}

/// A field's format code: its element count in decimal, then its type letter.
pub open spec fn count_code(n: int, code: char) -> Seq<char> {
    decimal(n).push(code)
}

/// Relies on `format!` with the `Display` of `i16` (decimal, a leading `-`
/// when negative) followed by the `Display` of `char` (the character).
#[verifier::external_body]
fn format_count(n: i16, code: char) -> (r: String)
    ensures
        r@ == count_code(n as int, code),
{
    format!("{}{}", n, code)
}

/// `s` without its trailing NUL bytes.
pub open spec fn trim_nul(s: Seq<u8>) -> Seq<u8>
    decreases s.len(),
{
    if s.len() > 0 && s.last() == 0 {
        trim_nul(s.drop_last())
    } else {
        s
    }
}

/// The plan name held in the 16-byte slot at `at`: its bytes without the
/// trailing NULs, decoded as UTF-8 with invalid sequences substituted.
pub open spec fn plan_name_at(b: Seq<u8>, at: int) -> Seq<char> {
    lossy_utf8(trim_nul(b.subrange(at, at + PLAN_NAME_LEN)))
}

/// A 2x6 block of words: its rows as sequences.
pub open spec fn block_view(m: [[u32; 6]; 2]) -> Seq<Seq<u32>> {
    seq![m[0]@, m[1]@]
}

/// The 2x6 block of words stored row after row from `at`.
pub open spec fn block_at(b: Seq<u8>, at: int) -> Seq<Seq<u32>> {
    seq![u32s_at(b, at, 6), u32s_at(b, at + 24, 6)]
}

/// The robot's most recently received state. Every `u32` is the bit pattern
/// of an `f32`; `timestamp` is the bit pattern of an `f64`.
pub struct SensData {
    pub data_size: i32,
    pub timestamp: u64,
    pub key: [i16; 2],
    pub plan_name: String,
    pub state: [i16; 2],
    pub joy: [u32; 4],
    pub rpy: [u32; 3],
    pub gyr: [u32; 3],
    pub acc: [u32; 3],
    pub act_j: Vec<u32>,
    pub act_w: Vec<u32>,
    pub act_t: Vec<u32>,
    pub drv_temp: Vec<i16>,
    pub drv_state: Vec<i16>,
    pub drv_err: Vec<i16>,
    pub tgt_j: Vec<u32>,
    pub tgt_w: Vec<u32>,
    pub tgt_t: Vec<u32>,
    pub act_finger_left: Vec<u32>,
    pub act_finger_right: Vec<u32>,
    pub tgt_finger_left: Vec<u32>,
    pub tgt_finger_right: Vec<u32>,
    pub act_tip_p_rpy2b: [[u32; 6]; 2],
    pub act_tip_vw2b: [[u32; 6]; 2],
    pub act_tip_fm2b: [[u32; 6]; 2],
    pub tgt_tip_p_rpy2b: [[u32; 6]; 2],
    pub tgt_tip_vw2b: [[u32; 6]; 2],
    pub tgt_tip_fm2b: [[u32; 6]; 2],
    /// Number of joints, which sizes the per-joint vectors.
    pub jnt_num: i16,
    /// Degrees of freedom of the left hand.
    pub finger_dof_left: i16,
    /// Degrees of freedom of the right hand.
    pub finger_dof_right: i16,
}

impl SensData {
    /// The degrees of freedom are counts.
    pub open spec fn dims_ok(&self) -> bool {
        self.jnt_num >= 0 && self.finger_dof_left >= 0 && self.finger_dof_right >= 0
    }

    /// Every vector has the size its degrees of freedom fix.
    pub open spec fn wf(&self) -> bool {
        let j = self.jnt_num as int;
        let l = self.finger_dof_left as int;
        let r = self.finger_dof_right as int;
        &&& self.dims_ok()
        &&& self.act_j@.len() == j
        &&& self.act_w@.len() == j
        &&& self.act_t@.len() == j
        &&& self.drv_temp@.len() == j
        &&& self.drv_state@.len() == j
        &&& self.drv_err@.len() == j
        &&& self.tgt_j@.len() == j
        &&& self.tgt_w@.len() == j
        &&& self.tgt_t@.len() == j
        &&& self.act_finger_left@.len() == l
        &&& self.act_finger_right@.len() == r
        &&& self.tgt_finger_left@.len() == l
        &&& self.tgt_finger_right@.len() == r
    }

    /// Size of a telemetry frame of these degrees of freedom:
    /// `376 + 30 * jnt_num + 8 * (finger_dof_left + finger_dof_right)`.
    pub open spec fn frame_len(&self) -> int {
        376 + 30 * self.jnt_num + 8 * self.finger_dof_left + 8 * self.finger_dof_right
    }

    /// Where the per-joint block starts.
    pub open spec fn joints_at() -> int {
        88
    }

    /// Where the hand block starts.
    pub open spec fn fingers_at(&self) -> int {
        88 + 30 * self.jnt_num
    }

    /// Where the six 2x6 end-effector blocks start.
    pub open spec fn tips_at(&self) -> int {
        self.fingers_at() + 8 * self.finger_dof_left + 8 * self.finger_dof_right
    }

    /// Every field of `self` is the one that `b` holds for a frame of
    /// `dims`'s degrees of freedom, read in order: `data_size`, `timestamp`,
    /// `key`, the plan-name slot, `state`, `joy`, `rpy`, `gyr`, `acc`, the
    /// nine per-joint vectors, the four hand vectors and the six 2x6 blocks.
    pub open spec fn decoded_from(&self, dims: &SensData, b: Seq<u8>) -> bool {
        let j = dims.jnt_num as int;
        let l = dims.finger_dof_left as int;
        let r = dims.finger_dof_right as int;
        let pj = Self::joints_at();
        let pf = dims.fingers_at();
        let pt = dims.tips_at();
        &&& self.jnt_num == dims.jnt_num
        &&& self.finger_dof_left == dims.finger_dof_left
        &&& self.finger_dof_right == dims.finger_dof_right
        &&& self.data_size == i32_at(b, 0)
        &&& self.timestamp == u64_at(b, 4)
        &&& self.key@ == i16s_at(b, 12, 2)
        &&& self.plan_name@ == plan_name_at(b, 16)
        &&& self.state@ == i16s_at(b, 32, 2)
        &&& self.joy@ == u32s_at(b, 36, 4)
        &&& self.rpy@ == u32s_at(b, 52, 3)
        &&& self.gyr@ == u32s_at(b, 64, 3)
        &&& self.acc@ == u32s_at(b, 76, 3)
        &&& self.act_j@ == u32s_at(b, pj, j)
        &&& self.act_w@ == u32s_at(b, pj + 4 * j, j)
        &&& self.act_t@ == u32s_at(b, pj + 8 * j, j)
        &&& self.drv_temp@ == i16s_at(b, pj + 12 * j, j)
        &&& self.drv_state@ == i16s_at(b, pj + 14 * j, j)
        &&& self.drv_err@ == i16s_at(b, pj + 16 * j, j)
        &&& self.tgt_j@ == u32s_at(b, pj + 18 * j, j)
        &&& self.tgt_w@ == u32s_at(b, pj + 22 * j, j)
        &&& self.tgt_t@ == u32s_at(b, pj + 26 * j, j)
        &&& self.act_finger_left@ == u32s_at(b, pf, l)
        &&& self.act_finger_right@ == u32s_at(b, pf + 4 * l, r)
        &&& self.tgt_finger_left@ == u32s_at(b, pf + 4 * l + 4 * r, l)
        &&& self.tgt_finger_right@ == u32s_at(b, pf + 8 * l + 4 * r, r)
        &&& block_view(self.act_tip_p_rpy2b) == block_at(b, pt)
        &&& block_view(self.act_tip_vw2b) == block_at(b, pt + 48)
        &&& block_view(self.act_tip_fm2b) == block_at(b, pt + 96)
        &&& block_view(self.tgt_tip_p_rpy2b) == block_at(b, pt + 144)
        &&& block_view(self.tgt_tip_vw2b) == block_at(b, pt + 192)
        &&& block_view(self.tgt_tip_fm2b) == block_at(b, pt + 240)
    }
}

/// Reads four words stored one after the other from `at`.
fn read_u32x4(b: &[u8], at: usize) -> (r: [u32; 4])
    requires
        at + 16 <= b@.len(),
    ensures
        r@ == u32s_at(b@, at as int, 4),
{
    let len = b.len();
    assert(at + 16 <= len);
    let r = [read_u32(b, at), read_u32(b, at + 4), read_u32(b, at + 8), read_u32(b, at + 12)];
    assert(r@ =~= u32s_at(b@, at as int, 4));
    r
}

/// Reads three words stored one after the other from `at`.
fn read_u32x3(b: &[u8], at: usize) -> (r: [u32; 3])
    requires
        at + 12 <= b@.len(),
    ensures
        r@ == u32s_at(b@, at as int, 3),
{
    let len = b.len();
    assert(at + 12 <= len);
    let r = [read_u32(b, at), read_u32(b, at + 4), read_u32(b, at + 8)];
    assert(r@ =~= u32s_at(b@, at as int, 3));
    r
}

/// Reads two 16-bit values stored one after the other from `at`.
fn read_i16x2(b: &[u8], at: usize) -> (r: [i16; 2])
    requires
        at + 4 <= b@.len(),
    ensures
        r@ == i16s_at(b@, at as int, 2),
{
    let len = b.len();
    assert(at + 4 <= len);
    let r = [read_i16(b, at), read_i16(b, at + 2)];
    assert(r@ =~= i16s_at(b@, at as int, 2));
    r
}

/// Reads six words stored one after the other from `at`.
fn read_u32x6(b: &[u8], at: usize) -> (r: [u32; 6])
    requires
        at + 24 <= b@.len(),
    ensures
        r@ == u32s_at(b@, at as int, 6),
{
    let len = b.len();
    assert(at + 24 <= len);
    let r = [
        read_u32(b, at),
        read_u32(b, at + 4),
        read_u32(b, at + 8),
        read_u32(b, at + 12),
        read_u32(b, at + 16),
        read_u32(b, at + 20),
    ];
    assert(r@ =~= u32s_at(b@, at as int, 6));
    r
}

/// Reads a 2x6 block of words stored row after row from `at`.
fn read_block(b: &[u8], at: usize) -> (r: [[u32; 6]; 2])
    requires
        at + 48 <= b@.len(),
    ensures
        block_view(r) == block_at(b@, at as int),
{
    let len = b.len();
    assert(at + 48 <= len);
    [read_u32x6(b, at), read_u32x6(b, at + 24)]
}

/// The length of `b`'s 16-byte slot at `at` without its trailing NULs.
fn trimmed_len(b: &[u8], at: usize) -> (r: usize)
    requires
        at + PLAN_NAME_LEN <= b@.len(),
    ensures
        r <= PLAN_NAME_LEN,
        b@.subrange(at as int, at + r) == trim_nul(b@.subrange(at as int, at + PLAN_NAME_LEN)),
{
    let len = b.len();
    let ghost slot = b@.subrange(at as int, at + PLAN_NAME_LEN);
    let mut n: usize = PLAN_NAME_LEN;
    while n > 0 && b[at + n - 1] == 0
        invariant
            n <= PLAN_NAME_LEN,
            len == b@.len(),
            at + PLAN_NAME_LEN <= len,
            slot == b@.subrange(at as int, at + PLAN_NAME_LEN),
            trim_nul(b@.subrange(at as int, at + n)) == trim_nul(slot),
        decreases n,
    {
        assert(b@.subrange(at as int, at + n).drop_last() =~= b@.subrange(at as int, at + n - 1));
        n = n - 1;
    }
    let ghost t = b@.subrange(at as int, at + n);
    assert(!(t.len() > 0 && t.last() == 0));
    n
}

impl SensData {
    /// A frame of the given degrees of freedom with every value zero and the
    /// plan name `"none"`.
    pub fn new(jnt_num: i16, finger_dof_left: i16, finger_dof_right: i16) -> (r: Self)
        requires
            jnt_num >= 0,
            finger_dof_left >= 0,
            finger_dof_right >= 0,
        ensures
            r.wf(),
            r.is_initial(jnt_num, finger_dof_left, finger_dof_right),
    {
        let j = jnt_num as usize;
        let l = finger_dof_left as usize;
        let r = finger_dof_right as usize;
        let plan_name = "none".to_owned();
        proof {
            reveal_strlit("none");
        }
        let f = SensData {
            data_size: 0,
            timestamp: 0,
            key: [0i16; 2],
            plan_name,
            state: [0i16; 2],
            joy: [0u32; 4],
            rpy: [0u32; 3],
            gyr: [0u32; 3],
            acc: [0u32; 3],
            act_j: filled_vec(j, 0u32),
            act_w: filled_vec(j, 0u32),
            act_t: filled_vec(j, 0u32),
            drv_temp: filled_vec(j, 0i16),
            drv_state: filled_vec(j, 0i16),
            drv_err: filled_vec(j, 0i16),
            tgt_j: filled_vec(j, 0u32),
            tgt_w: filled_vec(j, 0u32),
            tgt_t: filled_vec(j, 0u32),
            act_finger_left: filled_vec(l, 0u32),
            act_finger_right: filled_vec(r, 0u32),
            tgt_finger_left: filled_vec(l, 0u32),
            tgt_finger_right: filled_vec(r, 0u32),
            act_tip_p_rpy2b: [[0u32; 6]; 2],
            act_tip_vw2b: [[0u32; 6]; 2],
            act_tip_fm2b: [[0u32; 6]; 2],
            tgt_tip_p_rpy2b: [[0u32; 6]; 2],
            tgt_tip_vw2b: [[0u32; 6]; 2],
            tgt_tip_fm2b: [[0u32; 6]; 2],
            jnt_num,
            finger_dof_left,
            finger_dof_right,
        };
        assert(f.key@ =~= filled(2, 0i16));
        assert(f.state@ =~= filled(2, 0i16));
        assert(f.joy@ =~= filled(4, 0u32));
        assert(f.rpy@ =~= filled(3, 0u32));
        assert(f.gyr@ =~= filled(3, 0u32));
        assert(f.acc@ =~= filled(3, 0u32));
        assert(f.act_tip_p_rpy2b[0]@ =~= filled(6, 0u32));
        assert(f.act_tip_p_rpy2b[1]@ =~= filled(6, 0u32));
        assert(f.plan_name@ == seq!['n', 'o', 'n', 'e']);
        assert(block_view(f.act_tip_p_rpy2b) == seq![filled(6, 0u32), filled(6, 0u32)]);
        assert(block_view(f.tgt_tip_fm2b) == seq![filled(6, 0u32), filled(6, 0u32)]);
        f
    }

    /// A zeroed frame of the robot's own degrees of freedom.
    pub fn loong_sens_data_default() -> (r: SensData)
        ensures
            r.wf(),
            r.is_initial(LOONG_JNT_NUM, LOONG_FINGER_DOF_LEFT, LOONG_FINGER_DOF_RIGHT),
    {
        SensData::new(LOONG_JNT_NUM, LOONG_FINGER_DOF_LEFT, LOONG_FINGER_DOF_RIGHT)
    }

    /// Every value zero, the plan name `"none"`, and the given degrees of
    /// freedom.
    pub open spec fn is_initial(&self, jnt_num: i16, finger_dof_left: i16, finger_dof_right: i16) -> bool {
        let j = jnt_num as int;
        let l = finger_dof_left as int;
        let r = finger_dof_right as int;
        let zero_block = seq![filled(6, 0u32), filled(6, 0u32)];
        &&& self.jnt_num == jnt_num
        &&& self.finger_dof_left == finger_dof_left
        &&& self.finger_dof_right == finger_dof_right
        &&& self.data_size == 0
        &&& self.timestamp == 0
        &&& self.key@ == filled(2, 0i16)
        &&& self.plan_name@ == seq!['n', 'o', 'n', 'e']
        &&& self.state@ == filled(2, 0i16)
        &&& self.joy@ == filled(4, 0u32)
        &&& self.rpy@ == filled(3, 0u32)
        &&& self.gyr@ == filled(3, 0u32)
        &&& self.acc@ == filled(3, 0u32)
        &&& self.act_j@ == filled(j, 0u32)
        &&& self.act_w@ == filled(j, 0u32)
        &&& self.act_t@ == filled(j, 0u32)
        &&& self.drv_temp@ == filled(j, 0i16)
        &&& self.drv_state@ == filled(j, 0i16)
        &&& self.drv_err@ == filled(j, 0i16)
        &&& self.tgt_j@ == filled(j, 0u32)
        &&& self.tgt_w@ == filled(j, 0u32)
        &&& self.tgt_t@ == filled(j, 0u32)
        &&& self.act_finger_left@ == filled(l, 0u32)
        &&& self.act_finger_right@ == filled(r, 0u32)
        &&& self.tgt_finger_left@ == filled(l, 0u32)
        &&& self.tgt_finger_right@ == filled(r, 0u32)
        &&& block_view(self.act_tip_p_rpy2b) == zero_block
        &&& block_view(self.act_tip_vw2b) == zero_block
        &&& block_view(self.act_tip_fm2b) == zero_block
        &&& block_view(self.tgt_tip_p_rpy2b) == zero_block
        &&& block_view(self.tgt_tip_vw2b) == zero_block
        &&& block_view(self.tgt_tip_fm2b) == zero_block
    }
}

impl SensData {
    fn frame_len_usize(&self) -> (r: usize)
        requires
            self.dims_ok(),
        ensures
            r == self.frame_len(),
    {
        376 + 30 * (self.jnt_num as usize) + 8 * (self.finger_dof_left as usize) + 8 * (
        self.finger_dof_right as usize)
    }

    /// Decodes a telemetry frame of this frame's degrees of freedom from
    /// `buf`; bytes past the frame are ignored. A buffer shorter than
    /// `frame_len` is refused as truncated and leaves every field as it was;
    /// otherwise every field is overwritten with what `buf` holds.
    pub fn unpack_data(&mut self, buf: &[u8]) -> (r: Result<(), DecodeError>)
        requires
            old(self).dims_ok(),
        ensures
            r is Err <==> buf@.len() < old(self).frame_len(),
            r is Err ==> r == Err::<(), DecodeError>(DecodeError::Truncated) && *final(self)
                == *old(self),
            r is Ok ==> final(self).decoded_from(old(self), buf@) && final(self).wf(),
    {
        let total = self.frame_len_usize();
        if buf.len() < total {
            return Err(DecodeError::Truncated);
        }
        let j = self.jnt_num as usize;
        let l = self.finger_dof_left as usize;
        let r = self.finger_dof_right as usize;
        let pj: usize = 88;
        let pf = pj + 30 * j;
        let pt = pf + 8 * l + 8 * r;

        let data_size = read_i32(buf, 0);
        let timestamp = read_u64(buf, 4);
        let key = read_i16x2(buf, 12);
        let name_len = trimmed_len(buf, 16);
        let plan_name = utf8_lossy(buf, 16, name_len);
        let state = read_i16x2(buf, 32);
        let joy = read_u32x4(buf, 36);
        let rpy = read_u32x3(buf, 52);
        let gyr = read_u32x3(buf, 64);
        let acc = read_u32x3(buf, 76);
        let act_j = read_u32s(buf, pj, j);
        let act_w = read_u32s(buf, pj + 4 * j, j);
        let act_t = read_u32s(buf, pj + 8 * j, j);
        let drv_temp = read_i16s(buf, pj + 12 * j, j);
        let drv_state = read_i16s(buf, pj + 14 * j, j);
        let drv_err = read_i16s(buf, pj + 16 * j, j);
        let tgt_j = read_u32s(buf, pj + 18 * j, j);
        let tgt_w = read_u32s(buf, pj + 22 * j, j);
        let tgt_t = read_u32s(buf, pj + 26 * j, j);
        let act_finger_left = read_u32s(buf, pf, l);
        let act_finger_right = read_u32s(buf, pf + 4 * l, r);
        let tgt_finger_left = read_u32s(buf, pf + 4 * l + 4 * r, l);
        let tgt_finger_right = read_u32s(buf, pf + 8 * l + 4 * r, r);
        let act_tip_p_rpy2b = read_block(buf, pt);
        let act_tip_vw2b = read_block(buf, pt + 48);
        let act_tip_fm2b = read_block(buf, pt + 96);
        let tgt_tip_p_rpy2b = read_block(buf, pt + 144);
        let tgt_tip_vw2b = read_block(buf, pt + 192);
        let tgt_tip_fm2b = read_block(buf, pt + 240);

        self.data_size = data_size;
        self.timestamp = timestamp;
        self.key = key;
        self.plan_name = plan_name;
        self.state = state;
        self.joy = joy;
        self.rpy = rpy;
        self.gyr = gyr;
        self.acc = acc;
        self.act_j = act_j;
        self.act_w = act_w;
        self.act_t = act_t;
        self.drv_temp = drv_temp;
        self.drv_state = drv_state;
        self.drv_err = drv_err;
        self.tgt_j = tgt_j;
        self.tgt_w = tgt_w;
        self.tgt_t = tgt_t;
        self.act_finger_left = act_finger_left;
        self.act_finger_right = act_finger_right;
        self.tgt_finger_left = tgt_finger_left;
        self.tgt_finger_right = tgt_finger_right;
        self.act_tip_p_rpy2b = act_tip_p_rpy2b;
        self.act_tip_vw2b = act_tip_vw2b;
        self.act_tip_fm2b = act_tip_fm2b;
        self.tgt_tip_p_rpy2b = tgt_tip_p_rpy2b;
        self.tgt_tip_vw2b = tgt_tip_vw2b;
        self.tgt_tip_fm2b = tgt_tip_fm2b;
        Ok(())
    }
}

impl SensData {
    /// The size in bytes of each field of the telemetry layout, in order.
    pub open spec fn field_sizes(&self) -> Seq<int> {
        let j = self.jnt_num as int;
        let l = self.finger_dof_left as int;
        let r = self.finger_dof_right as int;
        seq![
            4,
            8,
            4,
            16,
            4,
            16,
            12,
            12,
            12,
            4 * j,
            4 * j,
            4 * j,
            2 * j,
            2 * j,
            2 * j,
            4 * j,
            4 * j,
            4 * j,
            4 * l,
            4 * r,
            4 * l,
            4 * r,
            48,
            48,
            48,
            48,
            48,
            48,
        ]
    }

    /// The format code of each field of the telemetry layout, in order: `i`
    /// for a 32-bit integer, `d` for a 64-bit float, then an element count
    /// with `h` for 16-bit integers, `s` for bytes and `f` for 32-bit floats.
    pub open spec fn field_formats(&self) -> Seq<Seq<char>> {
        let j = self.jnt_num as int;
        let l = self.finger_dof_left as int;
        let r = self.finger_dof_right as int;
        seq![
            seq!['i'],
            seq!['d'],
            count_code(2, 'h'),
            count_code(16, 's'),
            count_code(2, 'h'),
            count_code(4, 'f'),
            count_code(3, 'f'),
            count_code(3, 'f'),
            count_code(3, 'f'),
            count_code(j, 'f'),
            count_code(j, 'f'),
            count_code(j, 'f'),
            count_code(j, 'h'),
            count_code(j, 'h'),
            count_code(j, 'h'),
            count_code(j, 'f'),
            count_code(j, 'f'),
            count_code(j, 'f'),
            count_code(l, 'f'),
            count_code(r, 'f'),
            count_code(l, 'f'),
            count_code(r, 'f'),
            count_code(12, 'f'),
            count_code(12, 'f'),
            count_code(12, 'f'),
            count_code(12, 'f'),
            count_code(12, 'f'),
            count_code(12, 'f'),
        ]
    }

    /// The format code of each field, as `field_formats` gives it.
    pub fn get_fmt(&self) -> (r: Vec<String>)
        ensures
            r@.map_values(|s: String| s@) == self.field_formats(),
    {
        let i = "i".to_owned();
        let d = "d".to_owned();
        proof {
            reveal_strlit("i");
            reveal_strlit("d");
        }
        assert(i@ == seq!['i']);
        assert(d@ == seq!['d']);
        let mut r: Vec<String> = Vec::new();
        r.push(i);
        r.push(d);
        r.push(format_count(2, 'h'));
        r.push(format_count(16, 's'));
        r.push(format_count(2, 'h'));
        r.push(format_count(4, 'f'));
        r.push(format_count(3, 'f'));
        r.push(format_count(3, 'f'));
        r.push(format_count(3, 'f'));
        r.push(format_count(self.jnt_num, 'f'));
        r.push(format_count(self.jnt_num, 'f'));
        r.push(format_count(self.jnt_num, 'f'));
        r.push(format_count(self.jnt_num, 'h'));
        r.push(format_count(self.jnt_num, 'h'));
        r.push(format_count(self.jnt_num, 'h'));
        r.push(format_count(self.jnt_num, 'f'));
        r.push(format_count(self.jnt_num, 'f'));
        r.push(format_count(self.jnt_num, 'f'));
        r.push(format_count(self.finger_dof_left, 'f'));
        r.push(format_count(self.finger_dof_right, 'f'));
        r.push(format_count(self.finger_dof_left, 'f'));
        r.push(format_count(self.finger_dof_right, 'f'));
        r.push(format_count(12, 'f'));
        r.push(format_count(12, 'f'));
        r.push(format_count(12, 'f'));
        r.push(format_count(12, 'f'));
        r.push(format_count(12, 'f'));
        r.push(format_count(12, 'f'));
        assert(r@.map_values(|s: String| s@) =~= self.field_formats());
        r
    }

    /// The size in bytes of each field, as `field_sizes` gives it.
    pub fn get_fmt_size(&self) -> (r: Vec<usize>)
        requires
            self.dims_ok(),
        ensures
            r@.map_values(|x: usize| x as int) == self.field_sizes(),
    {
        let j = self.jnt_num as usize;
        let l = self.finger_dof_left as usize;
        let r_ = self.finger_dof_right as usize;
        let mut r: Vec<usize> = Vec::new();
        r.push(4);
        r.push(8);
        r.push(4);
        r.push(16);
        r.push(4);
        r.push(16);
        r.push(12);
        r.push(12);
        r.push(12);
        r.push(4 * j);
        r.push(4 * j);
        r.push(4 * j);
        r.push(2 * j);
        r.push(2 * j);
        r.push(2 * j);
        r.push(4 * j);
        r.push(4 * j);
        r.push(4 * j);
        r.push(4 * l);
        r.push(4 * r_);
        r.push(4 * l);
        r.push(4 * r_);
        r.push(48);
        r.push(48);
        r.push(48);
        r.push(48);
        r.push(48);
        r.push(48);
        assert(r@.map_values(|x: usize| x as int) =~= self.field_sizes());
        r
    }
}

/// The sum of a sequence of sizes.
pub open spec fn total(s: Seq<int>) -> int
    decreases s.len(),
{
    if s.len() == 0 {
        0
    } else {
        total(s.drop_last()) + s.last()
    }
}

/// The field sizes of the layout add up to the length of a frame, so the
/// size table and the decoder agree on where a frame ends.
pub proof fn lemma_field_sizes_cover_frame(s: &SensData)
    ensures
        total(s.field_sizes()) == s.frame_len(),
{
    reveal_with_fuel(total, 29);
}

} // verus!
