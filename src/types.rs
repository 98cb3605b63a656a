//! The anatomical roles a joint of a rig can play.
use vstd::prelude::*;

verus! {

pub struct LeftArm;

pub struct RightArm;

pub struct LeftLeg;

pub struct RightLeg;

/// Marks a joint that animation may move.
pub struct AnimatedJoint;

pub struct LeftHand;

pub struct RightHand;

pub struct Body;

/// The role of one joint, one variant per marker above.
#[derive(Clone, Copy, Debug, PartialEq, Eq, Structural)]
pub enum JointRole {
    RightArm,
    LeftArm,
    LeftLeg,
    RightLeg,
    RightHand,
    LeftHand,
    Body,
}

} // verus!
