//! Properties of the rig builders, proved over their specifications.
use crate::bits::{negates, ONE, ONE_TENTH, ZERO};
use crate::dealers::{limb_rig, torso_rig, weights, Dealer, DealtView, JointWeights};
use crate::mesh::MeshView;
use crate::DealWithJoints;
use vstd::prelude::*;

verus! {

/// Exactly one of the four weights is non-zero, and it is `v`.
pub open spec fn single_slot(w: JointWeights, v: u32) -> bool {
    v != ZERO && (
        (w.a == v && w.b == ZERO && w.c == ZERO && w.d == ZERO)
        || (w.a == ZERO && w.b == v && w.c == ZERO && w.d == ZERO)
        || (w.a == ZERO && w.b == ZERO && w.c == v && w.d == ZERO)
        || (w.a == ZERO && w.b == ZERO && w.c == ZERO && w.d == v))
}

/// A builder's output depends on the mesh alone: two meshes with the same
/// positions get the same joint slots, the same weights, the same joints and
/// the same inverse bind poses, and equal meshes get equal output.
pub proof fn lemma_deal_deterministic(d: Dealer, a: MeshView, b: MeshView)
    requires
        a.positions == b.positions,
    ensures
        a == b ==> d.dealt_of(a) == d.dealt_of(b),
        d.dealt_of(a) matches DealtView::Skinned(ra) ==> d.dealt_of(b) matches DealtView::Skinned(rb)
            && ra.joint_indices == rb.joint_indices && ra.joint_weights == rb.joint_weights
            && ra.joints == rb.joints && ra.inverse_bindposes == rb.inverse_bindposes,
{
}

/// Every vertex of a rig is given to exactly one joint, with weight `ONE`;
/// the arms and legs builder gives `ONE_TENTH` instead in its lower-left
/// quadrant. No weight is shared between joints.
pub proof fn lemma_partition_complete(d: Dealer, m: MeshView)
    ensures
        d.dealt_of(m) matches DealtView::Skinned(r) ==> forall|i: int|
            0 <= i < r.joint_weights.len() ==> {
                let w = #[trigger] r.joint_weights[i];
                ||| single_slot(w, ONE)
                ||| (d == Dealer::Body1 && single_slot(w, ONE_TENTH)
                    && w == weights(ZERO, ZERO, ONE_TENTH, ZERO))
            },
{
}

/// A rig has one joint slot set and one weight set per vertex.
pub proof fn lemma_attribute_lengths(d: Dealer, m: MeshView)
    ensures
        d.dealt_of(m) matches DealtView::Skinned(r) ==> r.joint_indices.len() == m.positions.len()
            && r.joint_weights.len() == m.positions.len() && r.mesh.positions.len()
            == m.positions.len(),
{
}

/// A rig has one inverse bind pose per joint, in the joints' order: the
/// translation that undoes that joint's rest translation.
pub proof fn lemma_bindposes_align(d: Dealer, m: MeshView)
    ensures
        d.dealt_of(m) matches DealtView::Skinned(r) ==> r.inverse_bindposes.len() == r.joints.len()
            && forall|i: int|
            0 <= i < r.joints.len() ==> negates(#[trigger] r.inverse_bindposes[i].x, r.joints[i].rest.x)
                && negates(r.inverse_bindposes[i].y, r.joints[i].rest.y) && negates(
                r.inverse_bindposes[i].z,
                r.joints[i].rest.z,
            ),
{
    match d {
        Dealer::Body1 => {
            let r = limb_rig(m);
            assert forall|i: int| 0 <= i < r.joints.len() implies negates(
                #[trigger] r.inverse_bindposes[i].x,
                r.joints[i].rest.x,
            ) && negates(r.inverse_bindposes[i].y, r.joints[i].rest.y) && negates(
                r.inverse_bindposes[i].z,
                r.joints[i].rest.z,
            ) by {
                assert(0 <= i < 4);
            }
        },
        Dealer::Body0 => {
            let r = torso_rig(m);
            assert forall|i: int| 0 <= i < r.joints.len() implies negates(
                #[trigger] r.inverse_bindposes[i].x,
                r.joints[i].rest.x,
            ) && negates(r.inverse_bindposes[i].y, r.joints[i].rest.y) && negates(
                r.inverse_bindposes[i].z,
                r.joints[i].rest.z,
            ) by {
                assert(0 <= i < 3);
            }
        },
        Dealer::Common => {},
    }
}

/// The pass-through builder hands back the mesh as it was: same positions,
/// normals, UVs, colours and indices.
pub proof fn lemma_passthrough_fidelity(m: MeshView)
    ensures
        Dealer::Common.dealt_of(m) == DealtView::Plain(m),
{
}

} // verus!
