//! The rig builders: a pass-through copy, and two hard partitions of a mesh's
//! vertices among synthetic joints.
use crate::bits::{less_than, lt, NEG_ZERO, ONE, ONE_TENTH, ZERO};
use crate::mesh::{MeshView, RawMesh, Vec3Bits};
use crate::types::JointRole;
use crate::DealWithJoints;
use vstd::prelude::*;

verus! {

/// `-20.0`: above it a vertex belongs to the arms, below it to the legs.
pub const LIMB_SPLIT_Y: u32 = 0xC1A0_0000;

/// `-15.0`: left of it a vertex belongs to the left hand.
pub const LEFT_BAND_X: u32 = 0xC170_0000;

/// `15.0`: from it rightwards a vertex belongs to the right hand.
pub const RIGHT_BAND_X: u32 = 0x4170_0000;

/// The four joint slots that influence a vertex.
#[derive(Clone, Copy, Debug, PartialEq, Eq, Structural)]
pub struct JointIndices {
    pub a: u16,
    pub b: u16,
    pub c: u16,
    pub d: u16,
}

/// The weight of each of the four slots, as `f32` bit patterns.
#[derive(Clone, Copy, Debug, PartialEq, Eq, Structural)]
pub struct JointWeights {
    pub a: u32,
    pub b: u32,
    pub c: u32,
    pub d: u32,
}

/// A joint: its role and its rest-pose translation relative to the rig.
#[derive(Clone, Copy, Debug, PartialEq, Eq, Structural)]
pub struct JointNode {
    pub role: JointRole,
    pub rest: Vec3Bits,
}

/// A skinned mesh with its joints. The inverse bind pose of joint `i` is the
/// translation `inverse_bindposes[i]`.
pub struct Rig {
    pub mesh: RawMesh,
    pub joint_indices: Vec<JointIndices>,
    pub joint_weights: Vec<JointWeights>,
    pub joints: Vec<JointNode>,
    pub inverse_bindposes: Vec<Vec3Bits>,
}

pub struct RigView {
    pub mesh: MeshView,
    pub joint_indices: Seq<JointIndices>,
    pub joint_weights: Seq<JointWeights>,
    pub joints: Seq<JointNode>,
    pub inverse_bindposes: Seq<Vec3Bits>,
}

impl View for Rig {
    type V = RigView;

    open spec fn view(&self) -> RigView {
        RigView {
            mesh: self.mesh@,
            joint_indices: self.joint_indices@,
            joint_weights: self.joint_weights@,
            joints: self.joints@,
            inverse_bindposes: self.inverse_bindposes@,
        }
    }
}

/// What a builder makes of a mesh: a plain copy, or a skinned rig.
pub enum Dealt {
    Plain(RawMesh),
    Skinned(Rig),
}

pub enum DealtView {
    Plain(MeshView),
    Skinned(RigView),
}

impl View for Dealt {
    type V = DealtView;

    open spec fn view(&self) -> DealtView {
        match self {
            Dealt::Plain(m) => DealtView::Plain(m@),
            Dealt::Skinned(r) => DealtView::Skinned(r@),
        }
    }
}

pub open spec fn weights(a: u32, b: u32, c: u32, d: u32) -> JointWeights {
    JointWeights { a, b, c, d }
}

pub open spec fn vec3(x: u32, y: u32, z: u32) -> Vec3Bits {
    Vec3Bits { x, y, z }
}

/// Arms and legs: the quadrant of the vertex by the sign of x and by y against
/// `LIMB_SPLIT_Y`. The lower-left quadrant carries `ONE_TENTH`, not `ONE`.
pub open spec fn limb_weight_of(p: Vec3Bits) -> JointWeights {
    let right = less_than(ZERO, p.x);
    let upper = less_than(LIMB_SPLIT_Y, p.y);
    if right && upper {
        weights(ONE, ZERO, ZERO, ZERO)
    } else if right {
        weights(ZERO, ZERO, ZERO, ONE)
    } else if upper {
        weights(ZERO, ONE, ZERO, ZERO)
    } else {
        weights(ZERO, ZERO, ONE_TENTH, ZERO)
    }
}

/// Hands and torso: the band of the vertex by x against `LEFT_BAND_X` and
/// `RIGHT_BAND_X`.
pub open spec fn torso_weight_of(p: Vec3Bits) -> JointWeights {
    if less_than(p.x, LEFT_BAND_X) {
        weights(ZERO, ONE, ZERO, ZERO)
    } else if less_than(p.x, RIGHT_BAND_X) {
        weights(ZERO, ZERO, ONE, ZERO)
    } else {
        weights(ONE, ZERO, ZERO, ZERO)
    }
}

pub open spec fn limb_slots() -> JointIndices {
    JointIndices { a: 0, b: 1, c: 2, d: 3 }
}

pub open spec fn torso_slots() -> JointIndices {
    JointIndices { a: 0, b: 1, c: 2, d: 0 }
}

/// Offsets of the arms and legs joints, each named by its value
/// (`POS_1_5` is `1.5`, `NEG_24_5` is `-24.5`).
pub const POS_8: u32 = 0x4100_0000;
pub const NEG_8: u32 = 0xC100_0000;
pub const POS_6: u32 = 0x40C0_0000;
pub const NEG_6: u32 = 0xC0C0_0000;
pub const POS_1_5: u32 = 0x3FC0_0000;
pub const NEG_1_5: u32 = 0xBFC0_0000;
pub const POS_3_5: u32 = 0x4060_0000;
pub const NEG_3_5: u32 = 0xC060_0000;
pub const POS_24_5: u32 = 0x41C4_0000;
pub const NEG_24_5: u32 = 0xC1C4_0000;
pub const NEG_1: u32 = 0xBF80_0000;

/// Offsets of the hands joints, named in the same way.
pub const POS_24: u32 = 0x41C0_0000;
pub const NEG_24: u32 = 0xC1C0_0000;
pub const POS_7: u32 = 0x40E0_0000;
pub const NEG_7: u32 = 0xC0E0_0000;
pub const POS_2_5: u32 = 0x4020_0000;
pub const NEG_2_5: u32 = 0xC020_0000;

pub open spec fn limb_joints() -> Seq<JointNode> {
    seq![
        JointNode { role: JointRole::RightArm, rest: vec3(POS_8, NEG_6, POS_1_5) },
        JointNode { role: JointRole::LeftArm, rest: vec3(NEG_8, NEG_6, POS_1_5) },
        JointNode { role: JointRole::LeftLeg, rest: vec3(NEG_3_5, NEG_24_5, ONE) },
        JointNode { role: JointRole::RightLeg, rest: vec3(POS_3_5, NEG_24_5, ONE) },
    ]
}

pub open spec fn limb_bindposes() -> Seq<Vec3Bits> {
    seq![vec3(NEG_8, POS_6, NEG_1_5), vec3(POS_8, POS_6, NEG_1_5), vec3(POS_3_5, POS_24_5, NEG_1), vec3(NEG_3_5, POS_24_5, NEG_1)]
}

pub open spec fn torso_joints() -> Seq<JointNode> {
    seq![
        JointNode { role: JointRole::RightHand, rest: vec3(POS_24, NEG_7, POS_2_5) },
        JointNode { role: JointRole::LeftHand, rest: vec3(NEG_24, NEG_7, POS_2_5) },
        JointNode { role: JointRole::Body, rest: vec3(ZERO, ZERO, ZERO) },
    ]
}

pub open spec fn torso_bindposes() -> Seq<Vec3Bits> {
    seq![vec3(NEG_24, POS_7, NEG_2_5), vec3(POS_24, POS_7, NEG_2_5), vec3(ZERO, ZERO, NEG_ZERO)]
}

/// The rig of the arms and legs builder: the mesh copied, every vertex given
/// the slots `0, 1, 2, 3` and its quadrant's weights.
pub open spec fn limb_rig(m: MeshView) -> RigView {
    RigView {
        mesh: m,
        joint_indices: Seq::new(m.positions.len(), |i: int| limb_slots()),
        joint_weights: m.positions.map_values(|p: Vec3Bits| limb_weight_of(p)),
        joints: limb_joints(),
        inverse_bindposes: limb_bindposes(),
    }
}

/// The rig of the hands and torso builder: the mesh copied, every vertex given
/// the slots `0, 1, 2, 0` and its band's weights.
pub open spec fn torso_rig(m: MeshView) -> RigView {
    RigView {
        mesh: m,
        joint_indices: Seq::new(m.positions.len(), |i: int| torso_slots()),
        joint_weights: m.positions.map_values(|p: Vec3Bits| torso_weight_of(p)),
        joints: torso_joints(),
        inverse_bindposes: torso_bindposes(),
    }
}

fn weights_of(a: u32, b: u32, c: u32, d: u32) -> (r: JointWeights)
    ensures
        r == weights(a, b, c, d),
{
    JointWeights { a, b, c, d }
}

fn vec3_of(x: u32, y: u32, z: u32) -> (r: Vec3Bits)
    ensures
        r == vec3(x, y, z),
{
    Vec3Bits { x, y, z }
}

/// The weights of one vertex for the arms and legs builder.
pub fn limb_weight(p: Vec3Bits) -> (r: JointWeights)
    ensures
        r == limb_weight_of(p),
{
    let right = lt(ZERO, p.x);
    let upper = lt(LIMB_SPLIT_Y, p.y);
    if right && upper {
        weights_of(ONE, ZERO, ZERO, ZERO)
    } else if right {
        weights_of(ZERO, ZERO, ZERO, ONE)
    } else if upper {
        weights_of(ZERO, ONE, ZERO, ZERO)
    } else {
        weights_of(ZERO, ZERO, ONE_TENTH, ZERO)
    }
}

/// The weights of one vertex for the hands and torso builder.
pub fn torso_weight(p: Vec3Bits) -> (r: JointWeights)
    ensures
        r == torso_weight_of(p),
{
    if lt(p.x, LEFT_BAND_X) {
        weights_of(ZERO, ONE, ZERO, ZERO)
    } else if lt(p.x, RIGHT_BAND_X) {
        weights_of(ZERO, ZERO, ONE, ZERO)
    } else {
        weights_of(ONE, ZERO, ZERO, ZERO)
    }
}

/// The per-vertex weights of a whole mesh; `limbs` picks the builder.
fn vertex_weights(positions: &Vec<Vec3Bits>, limbs: bool) -> (r: Vec<JointWeights>)
    ensures
        limbs ==> r@ == positions@.map_values(|p: Vec3Bits| limb_weight_of(p)),
        !limbs ==> r@ == positions@.map_values(|p: Vec3Bits| torso_weight_of(p)),
{
    let mut r: Vec<JointWeights> = Vec::with_capacity(positions.len());
    let mut i: usize = 0;
    while i < positions.len()
        invariant
            i <= positions@.len(),
            r@.len() == i,
            forall|k: int|
                0 <= k < i ==> #[trigger] r@[k] == (if limbs {
                    limb_weight_of(positions@[k])
                } else {
                    torso_weight_of(positions@[k])
                }),
        decreases positions@.len() - i,
    {
        let w = if limbs {
            limb_weight(positions[i])
        } else {
            torso_weight(positions[i])
        };
        r.push(w);
        i = i + 1;
    }
    if limbs {
        assert(r@ =~= positions@.map_values(|p: Vec3Bits| limb_weight_of(p)));
    } else {
        assert(r@ =~= positions@.map_values(|p: Vec3Bits| torso_weight_of(p)));
    }
    r
}

/// `n` copies of `s`.
fn repeat_slots(s: JointIndices, n: usize) -> (r: Vec<JointIndices>)
    ensures
        r@ == Seq::new(n as nat, |i: int| s),
{
    let mut r: Vec<JointIndices> = Vec::with_capacity(n);
    let mut i: usize = 0;
    while i < n
        invariant
            i <= n,
            r@ == Seq::new(i as nat, |k: int| s),
        decreases n - i,
    {
        r.push(s);
        i = i + 1;
        assert(r@ =~= Seq::new(i as nat, |k: int| s));
    }
    r
}

fn joint(role: JointRole, x: u32, y: u32, z: u32) -> (r: JointNode)
    ensures
        r == (JointNode { role, rest: vec3(x, y, z) }),
{
    JointNode { role, rest: vec3_of(x, y, z) }
}

/// Builds the arms and legs rig of a mesh.
pub fn build_limb_rig(mesh: &RawMesh) -> (r: Rig)
    ensures
        r@ == limb_rig(mesh@),
{
    let joint_weights = vertex_weights(&mesh.positions, true);
    let joint_indices = repeat_slots(JointIndices { a: 0, b: 1, c: 2, d: 3 }, mesh.vertex_count());
    let joints = vec![
        joint(JointRole::RightArm, POS_8, NEG_6, POS_1_5),
        joint(JointRole::LeftArm, NEG_8, NEG_6, POS_1_5),
        joint(JointRole::LeftLeg, NEG_3_5, NEG_24_5, ONE),
        joint(JointRole::RightLeg, POS_3_5, NEG_24_5, ONE),
    ];
    let inverse_bindposes = vec![
        vec3_of(NEG_8, POS_6, NEG_1_5),
        vec3_of(POS_8, POS_6, NEG_1_5),
        vec3_of(POS_3_5, POS_24_5, NEG_1),
        vec3_of(NEG_3_5, POS_24_5, NEG_1),
    ];
    let r = Rig { mesh: mesh.copy(), joint_indices, joint_weights, joints, inverse_bindposes };
    assert(r.joints@ =~= limb_joints());
    assert(r.inverse_bindposes@ =~= limb_bindposes());
    r
}

/// Builds the hands and torso rig of a mesh.
pub fn build_torso_rig(mesh: &RawMesh) -> (r: Rig)
    ensures
        r@ == torso_rig(mesh@),
{
    let joint_weights = vertex_weights(&mesh.positions, false);
    let joint_indices = repeat_slots(JointIndices { a: 0, b: 1, c: 2, d: 0 }, mesh.vertex_count());
    let joints = vec![
        joint(JointRole::RightHand, POS_24, NEG_7, POS_2_5),
        joint(JointRole::LeftHand, NEG_24, NEG_7, POS_2_5),
        joint(JointRole::Body, ZERO, ZERO, ZERO),
    ];
    let inverse_bindposes = vec![
        vec3_of(NEG_24, POS_7, NEG_2_5),
        vec3_of(POS_24, POS_7, NEG_2_5),
        vec3_of(ZERO, ZERO, NEG_ZERO),
    ];
    let r = Rig { mesh: mesh.copy(), joint_indices, joint_weights, joints, inverse_bindposes };
    assert(r.joints@ =~= torso_joints());
    assert(r.inverse_bindposes@ =~= torso_bindposes());
    r
}

} // verus!

verus! {

/// Passes a mesh through unchanged, with no joints.
#[derive(Clone, Copy, Debug)]
pub struct CommonDealers;

/// Arms and legs: four joints, by quadrant.
#[derive(Clone, Copy, Debug)]
pub struct Body1Dealers;

/// Hands and torso: three joints, by band of x.
#[derive(Clone, Copy, Debug)]
pub struct Body0Dealers;

/// The builder bound to a region of the model.
#[derive(Clone, Copy, Debug, PartialEq, Eq, Structural)]
pub enum Dealer {
    Common,
    Body1,
    Body0,
}

impl DealWithJoints for Dealer {
    open spec fn dealt_of(&self, m: MeshView) -> DealtView {
        match self {
            Dealer::Common => DealtView::Plain(m),
            Dealer::Body1 => DealtView::Skinned(limb_rig(m)),
            Dealer::Body0 => DealtView::Skinned(torso_rig(m)),
        }
    }

    fn deal(&self, mesh: Option<&RawMesh>) -> (r: Option<Dealt>) {
        match self {
            Dealer::Common => CommonDealers.deal(mesh),
            Dealer::Body1 => Body1Dealers.deal(mesh),
            Dealer::Body0 => Body0Dealers.deal(mesh),
        }
    }
}

impl DealWithJoints for CommonDealers {
    /// A copy of the mesh, unrigged.
    open spec fn dealt_of(&self, m: MeshView) -> DealtView {
        DealtView::Plain(m)
    }

    fn deal(&self, mesh: Option<&RawMesh>) -> (r: Option<Dealt>) {
        match mesh {
            Some(m) => Some(Dealt::Plain(m.copy())),
            None => None,
        }
    }
}

impl DealWithJoints for Body1Dealers {
    open spec fn dealt_of(&self, m: MeshView) -> DealtView {
        DealtView::Skinned(limb_rig(m))
    }

    fn deal(&self, mesh: Option<&RawMesh>) -> (r: Option<Dealt>) {
        match mesh {
            Some(m) => Some(Dealt::Skinned(build_limb_rig(m))),
            None => None,
        }
    }
}

impl DealWithJoints for Body0Dealers {
    open spec fn dealt_of(&self, m: MeshView) -> DealtView {
        DealtView::Skinned(torso_rig(m))
    }

    fn deal(&self, mesh: Option<&RawMesh>) -> (r: Option<Dealt>) {
        match mesh {
            Some(m) => Some(Dealt::Skinned(build_torso_rig(m))),
            None => None,
        }
    }
}

} // verus!
