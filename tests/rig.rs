use vox_rig::bits::{lt, ONE, ONE_TENTH, ZERO};
use vox_rig::dealers::{
    Body0Dealers, Body1Dealers, CommonDealers, Dealer, Dealt, JointIndices, JointWeights, Rig,
};
use vox_rig::mesh::{Indices, RawMesh, Vec2Bits, Vec3Bits, Vec4Bits};
use vox_rig::types::JointRole;
use vox_rig::DealWithJoints;

fn v3(x: f32, y: f32, z: f32) -> Vec3Bits {
    Vec3Bits { x: x.to_bits(), y: y.to_bits(), z: z.to_bits() }
}

fn mesh_at(points: &[(f32, f32)]) -> RawMesh {
    let n = points.len();
    RawMesh {
        positions: points.iter().map(|&(x, y)| v3(x, y, 0.5)).collect(),
        normals: vec![v3(0.0, 0.0, 1.0); n],
        uvs: vec![Vec2Bits { x: 0.25f32.to_bits(), y: 0.75f32.to_bits() }; n],
        colors: vec![
            Vec4Bits {
                x: 1.0f32.to_bits(),
                y: 0.5f32.to_bits(),
                z: 0.0f32.to_bits(),
                w: 1.0f32.to_bits()
            };
            n
        ],
        indices: Indices::U32((0..n as u32).collect()),
    }
}

fn weights(w: &JointWeights) -> [f32; 4] {
    [f32::from_bits(w.a), f32::from_bits(w.b), f32::from_bits(w.c), f32::from_bits(w.d)]
}

fn rest(v: &Vec3Bits) -> (f32, f32, f32) {
    (f32::from_bits(v.x), f32::from_bits(v.y), f32::from_bits(v.z))
}

fn skinned(d: Option<Dealt>) -> Rig {
    match d {
        Some(Dealt::Skinned(r)) => r,
        _ => panic!("expected a rig"),
    }
}

#[test]
fn constants_are_the_f32_values() {
    assert_eq!(f32::from_bits(ZERO), 0.0);
    assert_eq!(f32::from_bits(ONE), 1.0);
    assert_eq!(f32::from_bits(ONE_TENTH), 0.1);
}

#[test]
fn lt_matches_f32_order() {
    let vals = [
        0.0f32, -0.0, 1.0, -1.0, -20.0, -15.0, 15.0, 0.1, f32::INFINITY, f32::NEG_INFINITY,
        f32::NAN, 1e-40, -1e-40,
    ];
    for a in vals {
        for b in vals {
            assert_eq!(lt(a.to_bits(), b.to_bits()), a < b, "{} < {}", a, b);
        }
    }
}

#[test]
fn lower_left_vertices_take_the_tenth_weight() {
    let mesh = mesh_at(&vec![(-20.0, -25.0); 100]);
    let rig = skinned(Body1Dealers.deal(Some(&mesh)));
    assert_eq!(rig.joint_weights.len(), 100);
    for w in &rig.joint_weights {
        assert_eq!(weights(w), [0.0, 0.0, 0.1, 0.0]);
    }
    let roles: Vec<JointRole> = rig.joints.iter().map(|j| j.role).collect();
    assert_eq!(
        roles,
        vec![JointRole::RightArm, JointRole::LeftArm, JointRole::LeftLeg, JointRole::RightLeg]
    );
    let rests: Vec<(f32, f32, f32)> = rig.joints.iter().map(|j| rest(&j.rest)).collect();
    assert_eq!(
        rests,
        vec![(8.0, -6.0, 1.5), (-8.0, -6.0, 1.5), (-3.5, -24.5, 1.0), (3.5, -24.5, 1.0)]
    );
    assert!(rig.joint_indices.iter().all(|i| *i == JointIndices { a: 0, b: 1, c: 2, d: 3 }));
}

#[test]
fn limb_quadrants() {
    let mesh = mesh_at(&[(3.0, 0.0), (3.0, -21.0), (-3.0, 0.0), (-3.0, -21.0), (0.0, -20.0)]);
    let rig = skinned(Body1Dealers.deal(Some(&mesh)));
    let ws: Vec<[f32; 4]> = rig.joint_weights.iter().map(weights).collect();
    assert_eq!(
        ws,
        vec![
            [1.0, 0.0, 0.0, 0.0],
            [0.0, 0.0, 0.0, 1.0],
            [0.0, 1.0, 0.0, 0.0],
            [0.0, 0.0, 0.1, 0.0],
            [0.0, 0.0, 0.1, 0.0],
        ]
    );
    let ibp: Vec<(f32, f32, f32)> = rig.inverse_bindposes.iter().map(rest).collect();
    assert_eq!(
        ibp,
        vec![(-8.0, 6.0, -1.5), (8.0, 6.0, -1.5), (3.5, 24.5, -1.0), (-3.5, 24.5, -1.0)]
    );
}

#[test]
fn torso_bands() {
    let mesh = mesh_at(&[(-20.0, 0.0), (20.0, 0.0), (-15.0, 0.0), (0.0, 3.0), (14.9, 0.0), (15.0, 0.0)]);
    let rig = skinned(Body0Dealers.deal(Some(&mesh)));
    let ws: Vec<[f32; 4]> = rig.joint_weights.iter().map(weights).collect();
    assert_eq!(
        ws,
        vec![
            [0.0, 1.0, 0.0, 0.0],
            [1.0, 0.0, 0.0, 0.0],
            [0.0, 0.0, 1.0, 0.0],
            [0.0, 0.0, 1.0, 0.0],
            [0.0, 0.0, 1.0, 0.0],
            [1.0, 0.0, 0.0, 0.0],
        ]
    );
    let roles: Vec<JointRole> = rig.joints.iter().map(|j| j.role).collect();
    assert_eq!(roles, vec![JointRole::RightHand, JointRole::LeftHand, JointRole::Body]);
    let rests: Vec<(f32, f32, f32)> = rig.joints.iter().map(|j| rest(&j.rest)).collect();
    assert_eq!(rests, vec![(24.0, -7.0, 2.5), (-24.0, -7.0, 2.5), (0.0, 0.0, 0.0)]);
    let ibp: Vec<(f32, f32, f32)> = rig.inverse_bindposes.iter().map(rest).collect();
    assert_eq!(ibp, vec![(-24.0, 7.0, -2.5), (24.0, 7.0, -2.5), (0.0, 0.0, -0.0)]);
    assert!(rig.joint_indices.iter().all(|i| *i == JointIndices { a: 0, b: 1, c: 2, d: 0 }));
}

#[test]
fn nan_positions_fall_to_the_default_region() {
    let mesh = mesh_at(&[(f32::NAN, f32::NAN)]);
    let limbs = skinned(Body1Dealers.deal(Some(&mesh)));
    assert_eq!(weights(&limbs.joint_weights[0]), [0.0, 0.0, 0.1, 0.0]);
    let torso = skinned(Body0Dealers.deal(Some(&mesh)));
    assert_eq!(weights(&torso.joint_weights[0]), [1.0, 0.0, 0.0, 0.0]);
}

#[test]
fn dealing_twice_gives_the_same_rig() {
    let mesh = mesh_at(&[(-20.0, 0.0), (20.0, -30.0), (1.0, 1.0)]);
    for d in [Dealer::Body1, Dealer::Body0] {
        let a = skinned(d.deal(Some(&mesh)));
        let b = skinned(d.deal(Some(&mesh)));
        assert_eq!(a.joint_indices, b.joint_indices);
        assert_eq!(a.joint_weights, b.joint_weights);
        assert_eq!(a.joints, b.joints);
        assert_eq!(a.inverse_bindposes, b.inverse_bindposes);
    }
}

#[test]
fn every_vertex_has_one_weight() {
    let pts: Vec<(f32, f32)> =
        (-30..30).flat_map(|x| (-30..5).map(move |y| (x as f32, y as f32))).collect();
    let mesh = mesh_at(&pts);
    for d in [Dealer::Body1, Dealer::Body0] {
        let rig = skinned(d.deal(Some(&mesh)));
        assert_eq!(rig.joint_weights.len(), pts.len());
        assert_eq!(rig.joint_indices.len(), pts.len());
        assert_eq!(rig.mesh.positions.len(), pts.len());
        assert_eq!(rig.inverse_bindposes.len(), rig.joints.len());
        for w in &rig.joint_weights {
            let ws = weights(w);
            assert_eq!(ws.iter().filter(|v| **v != 0.0).count(), 1);
        }
    }
}

#[test]
fn passthrough_keeps_the_mesh() {
    let mesh = mesh_at(&[(1.0, 2.0), (-3.0, 4.0)]);
    match CommonDealers.deal(Some(&mesh)) {
        Some(Dealt::Plain(m)) => {
            assert_eq!(m.positions, mesh.positions);
            assert_eq!(m.normals, mesh.normals);
            assert_eq!(m.uvs, mesh.uvs);
            assert_eq!(m.colors, mesh.colors);
            match (&m.indices, &mesh.indices) {
                (Indices::U32(a), Indices::U32(b)) => assert_eq!(a, b),
                _ => panic!("index width changed"),
            }
        }
        _ => panic!("expected a plain mesh"),
    }
}

#[test]
fn rig_copies_the_mesh_attributes() {
    let mut mesh = mesh_at(&[(1.0, 2.0), (-3.0, 4.0)]);
    mesh.indices = Indices::U16(vec![0, 1, 1]);
    let rig = skinned(Body1Dealers.deal(Some(&mesh)));
    assert_eq!(rig.mesh.positions, mesh.positions);
    assert_eq!(rig.mesh.normals, mesh.normals);
    assert_eq!(rig.mesh.uvs, mesh.uvs);
    assert_eq!(rig.mesh.colors, mesh.colors);
    assert!(matches!(rig.mesh.indices, Indices::U16(ref v) if *v == vec![0, 1, 1]));
}

#[test]
fn absent_mesh_builds_nothing() {
    assert!(CommonDealers.deal(None).is_none());
    assert!(Body1Dealers.deal(None).is_none());
    assert!(Body0Dealers.deal(None).is_none());
    assert!(Dealer::Body0.deal(None).is_none());
}
