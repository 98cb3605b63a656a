//! The walk over a voxel scene tree: a depth-first sequence of steps, each
//! named shape handed to the builder bound to its enclosing transform.
use crate::dealers::{Dealer, Dealt};
use crate::mesh::RawMesh;
use std::collections::HashMap;
use crate::DealWithJoints;
use vstd::prelude::*;

verus! {

broadcast use vstd::std_specs::hash::group_hash_axioms;

/// A translation in voxel units.
#[derive(Clone, Copy, Debug, PartialEq, Eq, Structural)]
pub struct Position {
    pub x: i32,
    pub y: i32,
    pub z: i32,
}

/// One node of the scene table; `child`, `children` are indices into it and
/// `models` index the table of meshes.
pub enum SceneNode {
    Transform { name: Option<String>, frames: Vec<Option<Position>>, child: u32, layer_id: u32 },
    Group { children: Vec<u32> },
    Shape { models: Vec<u32> },
}

/// The builder for the transforms of a given name.
pub struct RegionBinding {
    pub name: String,
    pub dealer: Dealer,
}

/// One step of the depth-first walk: entering a transform, leaving it, or a
/// shape's model with the transform that encloses it.
#[derive(Clone, Copy, Debug, PartialEq, Eq, Structural)]
pub enum Step {
    Open(u32),
    Close,
    Shape { model_id: u32, owner: Option<u32> },
}

#[derive(Clone, Copy, Debug, PartialEq, Eq, Structural)]
pub enum SceneError {
    /// A child index outside the table, or a cycle.
    Malformed,
    /// A mesh to be built has not finished loading.
    NotReady,
}

/// What the walk makes of each step: a transform's placement, the end of its
/// children, a built shape, or a shape that no builder claims.
pub enum Placement {
    Open { node: u32, translation: Option<Position>, hidden: bool },
    Close,
    Piece { model_id: u32, dealt: Dealt },
    Skipped { model_id: u32 },
}

/// The steps of the subtree at `idx`, where at most `fuel` nodes lie on any
/// path down; `None` where an index is out of the table or the depth exceeds it.
pub open spec fn steps_of(nodes: Seq<SceneNode>, idx: u32, owner: Option<u32>, fuel: nat) -> Option<
    Seq<Step>,
>
    decreases fuel, 0nat,
{
    if fuel == 0 || idx >= nodes.len() {
        None
    } else {
        match nodes[idx as int] {
            SceneNode::Transform { child, .. } => match steps_of(
                nodes,
                child,
                Some(idx),
                (fuel - 1) as nat,
            ) {
                Some(s) => Some(seq![Step::Open(idx)] + s + seq![Step::Close]),
                None => None,
            },
            SceneNode::Group { children } => steps_of_list(
                nodes,
                children@,
                owner,
                (fuel - 1) as nat,
            ),
            SceneNode::Shape { models } => Some(
                models@.map_values(|m: u32| Step::Shape { model_id: m, owner }),
            ),
        }
    }
}

/// The steps of the subtrees at `list`, one after the other.
pub open spec fn steps_of_list(
    nodes: Seq<SceneNode>,
    list: Seq<u32>,
    owner: Option<u32>,
    fuel: nat,
) -> Option<Seq<Step>>
    decreases fuel, list.len(),
{
    if list.len() == 0 {
        Some(Seq::empty())
    } else {
        match steps_of(nodes, list[0], owner, fuel) {
            Some(a) => match steps_of_list(nodes, list.drop_first(), owner, fuel) {
                Some(b) => Some(a + b),
                None => None,
            },
            None => None,
        }
    }
}

/// The steps of the whole tree from `root`: a tree of `n` nodes is no deeper
/// than `n`.
pub open spec fn scene_steps(nodes: Seq<SceneNode>, root: u32) -> Option<Seq<Step>> {
    steps_of(nodes, root, None, nodes.len())
}

/// The translation of the last frame that has one.
pub open spec fn last_position(frames: Seq<Option<Position>>) -> Option<Position>
    decreases frames.len(),
{
    if frames.len() == 0 {
        None
    } else if frames.last() is Some {
        frames.last()
    } else {
        last_position(frames.drop_last())
    }
}

pub open spec fn node_translation(n: SceneNode) -> Option<Position> {
    match n {
        SceneNode::Transform { frames, .. } => last_position(frames@),
        _ => None,
    }
}

/// A transform is hidden where its layer is marked hidden; a layer absent from
/// the map is visible.
pub open spec fn node_hidden(n: SceneNode, layers: Map<u32, bool>) -> bool {
    match n {
        SceneNode::Transform { layer_id, .. } => layers.contains_key(layer_id) && layers[layer_id],
        _ => false,
    }
}

/// The builder of the first binding named `name`.
pub open spec fn binding_of(bindings: Seq<RegionBinding>, name: Seq<char>) -> Option<Dealer>
    decreases bindings.len(),
{
    if bindings.len() == 0 {
        None
    } else if bindings[0].name@ == name {
        Some(bindings[0].dealer)
    } else {
        binding_of(bindings.drop_first(), name)
    }
}

/// The builder bound to the name of the enclosing transform, if any.
pub open spec fn owner_dealer(
    nodes: Seq<SceneNode>,
    bindings: Seq<RegionBinding>,
    owner: Option<u32>,
) -> Option<Dealer> {
    match owner {
        Some(t) => if t < nodes.len() {
            match nodes[t as int] {
                SceneNode::Transform { name: Some(n), .. } => binding_of(bindings, n@),
                _ => None,
            }
        } else {
            None
        },
        None => None,
    }
}

pub open spec fn mesh_ready(meshes: Seq<Option<RawMesh>>, model_id: u32) -> bool {
    model_id < meshes.len() && meshes[model_id as int] is Some
}

/// Every shape that a builder claims has its mesh loaded.
pub open spec fn steps_ready(
    s: Seq<Step>,
    nodes: Seq<SceneNode>,
    bindings: Seq<RegionBinding>,
    meshes: Seq<Option<RawMesh>>,
) -> bool {
    forall|i: int|
        0 <= i < s.len() ==> match #[trigger] s[i] {
            Step::Shape { model_id, owner } => owner_dealer(nodes, bindings, owner) is Some
                ==> mesh_ready(meshes, model_id),
            _ => true,
        }
}

/// `p` is what the walk makes of step `s`.
pub open spec fn placement_of(
    p: Placement,
    s: Step,
    nodes: Seq<SceneNode>,
    bindings: Seq<RegionBinding>,
    meshes: Seq<Option<RawMesh>>,
    layers: Map<u32, bool>,
) -> bool {
    match s {
        Step::Open(n) => p == Placement::Open {
            node: n,
            translation: node_translation(nodes[n as int]),
            hidden: node_hidden(nodes[n as int], layers),
        },
        Step::Close => p is Close,
        Step::Shape { model_id, owner } => match owner_dealer(nodes, bindings, owner) {
            Some(d) => match p {
                Placement::Piece { model_id: m, dealt } => m == model_id && dealt@ == d.dealt_of(
                    meshes[model_id as int].unwrap()@,
                ),
                _ => false,
            },
            None => p == Placement::Skipped { model_id },
        },
    }
}

pub open spec fn placements_match(
    ps: Seq<Placement>,
    s: Seq<Step>,
    nodes: Seq<SceneNode>,
    bindings: Seq<RegionBinding>,
    meshes: Seq<Option<RawMesh>>,
    layers: Map<u32, bool>,
) -> bool {
    &&& ps.len() == s.len()
    &&& forall|i: int|
        0 <= i < s.len() ==> placement_of(#[trigger] ps[i], s[i], nodes, bindings, meshes, layers)
}

} // verus!

verus! {

/// Appends the steps of the subtree at `idx`; false where the subtree is
/// malformed (what was appended then is of no use).
fn collect(
    nodes: &Vec<SceneNode>,
    idx: u32,
    owner: Option<u32>,
    fuel: usize,
    out: &mut Vec<Step>,
) -> (ok: bool)
    ensures
        ok == steps_of(nodes@, idx, owner, fuel as nat).is_some(),
        ok ==> final(out)@ == old(out)@ + steps_of(nodes@, idx, owner, fuel as nat).unwrap(),
    decreases fuel, 0nat,
{
    if fuel == 0 || idx as usize >= nodes.len() {
        return false;
    }
    match &nodes[idx as usize] {
        SceneNode::Transform { child, .. } => {
            out.push(Step::Open(idx));
            let ok = collect(nodes, *child, Some(idx), fuel - 1, out);
            if ok {
                out.push(Step::Close);
                proof {
                    let s = steps_of(nodes@, *child, Some(idx), (fuel - 1) as nat).unwrap();
                    assert(final(out)@ =~= old(out)@ + (seq![Step::Open(idx)] + s + seq![Step::Close]));
                }
            }
            ok
        },
        SceneNode::Group { children } => {
            assert(children@.subrange(0, children@.len() as int) =~= children@);
            collect_list(nodes, children, 0, owner, fuel - 1, out)
        },
        SceneNode::Shape { models } => {
            let mut i: usize = 0;
            while i < models.len()
                invariant
                    i <= models@.len(),
                    out@ == old(out)@ + models@.subrange(0, i as int).map_values(
                        |m: u32| Step::Shape { model_id: m, owner },
                    ),
                decreases models@.len() - i,
            {
                out.push(Step::Shape { model_id: models[i], owner });
                i = i + 1;
                assert(out@ =~= old(out)@ + models@.subrange(0, i as int).map_values(
                    |m: u32| Step::Shape { model_id: m, owner },
                ));
            }
            assert(models@.subrange(0, i as int) =~= models@);
            true
        },
    }
}

/// Appends the steps of the subtrees at `list[start..]`.
fn collect_list(
    nodes: &Vec<SceneNode>,
    list: &Vec<u32>,
    start: usize,
    owner: Option<u32>,
    fuel: usize,
    out: &mut Vec<Step>,
) -> (ok: bool)
    requires
        start <= list@.len(),
    ensures
        ok == steps_of_list(nodes@, list@.subrange(start as int, list@.len() as int), owner, fuel as nat).is_some(),
        ok ==> final(out)@ == old(out)@ + steps_of_list(
            nodes@,
            list@.subrange(start as int, list@.len() as int),
            owner,
            fuel as nat,
        ).unwrap(),
    decreases fuel, list@.len() - start,
{
    let ghost rest = list@.subrange(start as int, list@.len() as int);
    if start == list.len() {
        return true;
    }
    assert(rest[0] == list@[start as int]);
    assert(rest.drop_first() =~= list@.subrange(start + 1, list@.len() as int));
    let ok = collect(nodes, list[start], owner, fuel, out);
    if !ok {
        return false;
    }
    let ghost mid = out@;
    let ok2 = collect_list(nodes, list, start + 1, owner, fuel, out);
    proof {
        if ok2 {
            let a = steps_of(nodes@, list@[start as int], owner, fuel as nat).unwrap();
            let b = steps_of_list(nodes@, rest.drop_first(), owner, fuel as nat).unwrap();
            assert(final(out)@ =~= old(out)@ + (a + b));
        }
    }
    ok2
}

/// The last translation among `frames`.
fn last_translation(frames: &Vec<Option<Position>>) -> (r: Option<Position>)
    ensures
        r == last_position(frames@),
{
    let mut i: usize = frames.len();
    assert(frames@.subrange(0, i as int) =~= frames@);
    while i > 0
        invariant
            i <= frames@.len(),
            last_position(frames@) == last_position(frames@.subrange(0, i as int)),
        decreases i,
    {
        let ghost pre = frames@.subrange(0, i as int);
        if frames[i - 1].is_some() {
            return frames[i - 1];
        }
        assert(pre.drop_last() =~= frames@.subrange(0, i - 1));
        i = i - 1;
    }
    assert(frames@.subrange(0, 0) =~= Seq::<Option<Position>>::empty());
    None
}

/// The builder bound to `name`, the first binding that carries it.
pub fn find_binding(bindings: &Vec<RegionBinding>, name: &String) -> (r: Option<Dealer>)
    ensures
        r == binding_of(bindings@, name@),
{
    let mut i: usize = 0;
    assert(bindings@.subrange(0, bindings@.len() as int) =~= bindings@);
    while i < bindings.len()
        invariant
            i <= bindings@.len(),
            binding_of(bindings@, name@) == binding_of(bindings@.subrange(i as int, bindings@.len() as int), name@),
        decreases bindings@.len() - i,
    {
        let ghost rest = bindings@.subrange(i as int, bindings@.len() as int);
        assert(rest[0] == bindings@[i as int]);
        if bindings[i].name == *name {
            return Some(bindings[i].dealer);
        }
        assert(rest.drop_first() =~= bindings@.subrange(i + 1, bindings@.len() as int));
        i = i + 1;
    }
    None
}

fn dealer_of(nodes: &Vec<SceneNode>, bindings: &Vec<RegionBinding>, owner: Option<u32>) -> (r: Option<Dealer>)
    ensures
        r == owner_dealer(nodes@, bindings@, owner),
{
    match owner {
        Some(t) => {
            if t as usize >= nodes.len() {
                return None;
            }
            match &nodes[t as usize] {
                SceneNode::Transform { name: Some(n), .. } => find_binding(bindings, n),
                _ => None,
            }
        },
        None => None,
    }
}

/// Whether every claimed shape among `steps` has its mesh loaded.
fn all_ready(
    steps: &Vec<Step>,
    nodes: &Vec<SceneNode>,
    bindings: &Vec<RegionBinding>,
    meshes: &Vec<Option<RawMesh>>,
) -> (r: bool)
    ensures
        r == steps_ready(steps@, nodes@, bindings@, meshes@),
{
    let mut i: usize = 0;
    while i < steps.len()
        invariant
            i <= steps@.len(),
            steps_ready(steps@.subrange(0, i as int), nodes@, bindings@, meshes@),
        decreases steps@.len() - i,
    {
        if let Step::Shape { model_id, owner } = steps[i] {
            if dealer_of(nodes, bindings, owner).is_some() {
                if model_id as usize >= meshes.len() || meshes[model_id as usize].is_none() {
                    assert(steps@.subrange(0, i + 1)[i as int] == steps@[i as int]);
                    assert(!steps_ready(steps@, nodes@, bindings@, meshes@)) by {
                        assert(steps@[i as int] == Step::Shape { model_id, owner });
                    }
                    return false;
                }
            }
        }
        proof {
            let pre = steps@.subrange(0, i as int);
            let next = steps@.subrange(0, i + 1);
            assert forall|k: int| 0 <= k < next.len() implies match #[trigger] next[k] {
                Step::Shape { model_id, owner } => owner_dealer(nodes@, bindings@, owner) is Some
                    ==> mesh_ready(meshes@, model_id),
                _ => true,
            } by {
                if k < i {
                    assert(next[k] == pre[k]);
                }
            }
        }
        i = i + 1;
    }
    assert(steps@.subrange(0, i as int) =~= steps@);
    true
}

} // verus!

verus! {

fn layer_is_hidden(layers: &HashMap<u32, bool>, layer_id: u32) -> (r: bool)
    ensures
        r == (layers@.contains_key(layer_id) && layers@[layer_id]),
{
    match layers.get(&layer_id) {
        Some(h) => *h,
        None => false,
    }
}

/// What the walk makes of one step; the meshes of claimed shapes are loaded.
fn place(
    s: Step,
    nodes: &Vec<SceneNode>,
    bindings: &Vec<RegionBinding>,
    meshes: &Vec<Option<RawMesh>>,
    layers: &HashMap<u32, bool>,
) -> (p: Placement)
    requires
        steps_ready(seq![s], nodes@, bindings@, meshes@),
        s matches Step::Open(n) ==> n < nodes@.len(),
    ensures
        placement_of(p, s, nodes@, bindings@, meshes@, layers@),
{
    match s {
        Step::Open(n) => {
            let node = &nodes[n as usize];
            match node {
                SceneNode::Transform { frames, layer_id, .. } => Placement::Open {
                    node: n,
                    translation: last_translation(frames),
                    hidden: layer_is_hidden(layers, *layer_id),
                },
                _ => Placement::Open { node: n, translation: None, hidden: false },
            }
        },
        Step::Close => Placement::Close,
        Step::Shape { model_id, owner } => {
            assert(seq![s][0] == s);
            match dealer_of(nodes, bindings, owner) {
                Some(d) => {
                    let mesh = meshes[model_id as usize].as_ref();
                    let dealt = d.deal(mesh);
                    Placement::Piece { model_id, dealt: dealt.unwrap() }
                },
                None => Placement::Skipped { model_id },
            }
        },
    }
}

/// Every `Open` step of the subtree names a node of the table.
proof fn lemma_steps_open_in_range(nodes: Seq<SceneNode>, idx: u32, owner: Option<u32>, fuel: nat)
    requires
        steps_of(nodes, idx, owner, fuel) is Some,
    ensures
        forall|i: int|
            0 <= i < steps_of(nodes, idx, owner, fuel).unwrap().len() ==> (
            #[trigger] steps_of(nodes, idx, owner, fuel).unwrap()[i] matches Step::Open(n) ==> n
                < nodes.len()),
    decreases fuel, 0nat,
{
    match nodes[idx as int] {
        SceneNode::Transform { child, .. } => {
            lemma_steps_open_in_range(nodes, child, Some(idx), (fuel - 1) as nat);
            let s = steps_of(nodes, child, Some(idx), (fuel - 1) as nat).unwrap();
            let all = seq![Step::Open(idx)] + s + seq![Step::Close];
            assert forall|i: int| 0 <= i < all.len() implies (#[trigger] all[i] matches Step::Open(n)
                ==> n < nodes.len()) by {
                if 1 <= i < all.len() - 1 {
                    assert(all[i] == s[i - 1]);
                }
            }
        },
        SceneNode::Group { children } => {
            lemma_list_open_in_range(nodes, children@, owner, (fuel - 1) as nat);
        },
        SceneNode::Shape { models } => {},
    }
}

proof fn lemma_list_open_in_range(nodes: Seq<SceneNode>, list: Seq<u32>, owner: Option<u32>, fuel: nat)
    requires
        steps_of_list(nodes, list, owner, fuel) is Some,
    ensures
        forall|i: int|
            0 <= i < steps_of_list(nodes, list, owner, fuel).unwrap().len() ==> (
            #[trigger] steps_of_list(nodes, list, owner, fuel).unwrap()[i] matches Step::Open(n)
                ==> n < nodes.len()),
    decreases fuel, list.len(),
{
    if list.len() > 0 {
        lemma_steps_open_in_range(nodes, list[0], owner, fuel);
        lemma_list_open_in_range(nodes, list.drop_first(), owner, fuel);
        let a = steps_of(nodes, list[0], owner, fuel).unwrap();
        let b = steps_of_list(nodes, list.drop_first(), owner, fuel).unwrap();
        let all = a + b;
        assert forall|i: int| 0 <= i < all.len() implies (#[trigger] all[i] matches Step::Open(n)
            ==> n < nodes.len()) by {
            if i < a.len() {
                assert(all[i] == a[i]);
            } else {
                assert(all[i] == b[i - a.len()]);
            }
        }
    }
}

/// The steps of the scene tree from `root`, depth first; `None` where a child
/// index is outside the table or the tree has a cycle.
pub fn scene_walk_steps(nodes: &Vec<SceneNode>, root: u32) -> (r: Option<Vec<Step>>)
    ensures
        r.is_some() == scene_steps(nodes@, root).is_some(),
        r.is_some() ==> r.unwrap()@ == scene_steps(nodes@, root).unwrap(),
{
    let mut out: Vec<Step> = Vec::new();
    let ok = collect(nodes, root, None, nodes.len(), &mut out);
    assert(Seq::<Step>::empty() + out@ =~= out@);
    if ok {
        Some(out)
    } else {
        None
    }
}

/// Walks the scene tree from `root`. Each transform is placed with its last
/// translation and its layer's visibility; each shape under a transform whose
/// name is bound is built by that binding's builder, any other shape skipped.
/// Fails with `Malformed` on a dangling index or a cycle, else with `NotReady`
/// where a mesh to be built has not loaded; nothing is built then.
pub fn perpare_player_data(
    nodes: &Vec<SceneNode>,
    root: u32,
    bindings: &Vec<RegionBinding>,
    meshes: &Vec<Option<RawMesh>>,
    layers: &HashMap<u32, bool>,
) -> (r: Result<Vec<Placement>, SceneError>)
    ensures
        scene_steps(nodes@, root) is None ==> r == Err::<Vec<Placement>, SceneError>(
            SceneError::Malformed,
        ),
        scene_steps(nodes@, root) is Some && !steps_ready(
            scene_steps(nodes@, root).unwrap(),
            nodes@,
            bindings@,
            meshes@,
        ) ==> r == Err::<Vec<Placement>, SceneError>(SceneError::NotReady),
        scene_steps(nodes@, root) is Some && steps_ready(
            scene_steps(nodes@, root).unwrap(),
            nodes@,
            bindings@,
            meshes@,
        ) ==> r is Ok && placements_match(
            r->Ok_0@,
            scene_steps(nodes@, root).unwrap(),
            nodes@,
            bindings@,
            meshes@,
            layers@,
        ),
{
    let steps = match scene_walk_steps(nodes, root) {
        Some(s) => s,
        None => return Err(SceneError::Malformed),
    };
    if !all_ready(&steps, nodes, bindings, meshes) {
        return Err(SceneError::NotReady);
    }
    proof {
        lemma_steps_open_in_range(nodes@, root, None, nodes@.len());
    }
    let mut out: Vec<Placement> = Vec::with_capacity(steps.len());
    let mut i: usize = 0;
    while i < steps.len()
        invariant
            i <= steps@.len(),
            steps@ == scene_steps(nodes@, root).unwrap(),
            steps_ready(steps@, nodes@, bindings@, meshes@),
            forall|k: int|
                0 <= k < steps@.len() ==> (#[trigger] steps@[k] matches Step::Open(n) ==> n
                    < nodes@.len()),
            out@.len() == i,
            forall|k: int|
                0 <= k < i ==> placement_of(#[trigger] out@[k], steps@[k], nodes@, bindings@, meshes@, layers@),
        decreases steps@.len() - i,
    {
        let s = steps[i];
        assert(steps_ready(seq![s], nodes@, bindings@, meshes@)) by {
            assert forall|k: int| 0 <= k < 1 implies match #[trigger] seq![s][k] {
                Step::Shape { model_id, owner } => owner_dealer(nodes@, bindings@, owner) is Some
                    ==> mesh_ready(meshes@, model_id),
                _ => true,
            } by {
                assert(seq![s][k] == steps@[i as int]);
            }
        }
        let p = place(s, nodes, bindings, meshes, layers);
        out.push(p);
        i = i + 1;
    }
    Ok(out)
}

/// The state of one build: not built yet, or built once with its placements.
pub enum RigSlot {
    Unbuilt,
    Built(Vec<Placement>),
}

impl RigSlot {
    pub fn new() -> (r: RigSlot)
        ensures
            r is Unbuilt,
    {
        RigSlot::Unbuilt
    }

    /// Builds the scene once its meshes have loaded. A built slot is left as it
    /// is (`Ok(false)`); an unbuilt one is built (`Ok(true)`) exactly when the
    /// walk succeeds, and otherwise left untouched with the walk's error.
    pub fn poll(
        &mut self,
        nodes: &Vec<SceneNode>,
        root: u32,
        bindings: &Vec<RegionBinding>,
        meshes: &Vec<Option<RawMesh>>,
        layers: &HashMap<u32, bool>,
    ) -> (r: Result<bool, SceneError>)
        ensures
            *old(self) is Built ==> *final(self) == *old(self) && r == Ok::<bool, SceneError>(false),
            *old(self) is Unbuilt && scene_steps(nodes@, root) is None ==> *final(self) == *old(self)
                && r == Err::<bool, SceneError>(SceneError::Malformed),
            *old(self) is Unbuilt && scene_steps(nodes@, root) is Some && !steps_ready(
                scene_steps(nodes@, root).unwrap(),
                nodes@,
                bindings@,
                meshes@,
            ) ==> *final(self) == *old(self) && r == Err::<bool, SceneError>(SceneError::NotReady),
            *old(self) is Unbuilt && scene_steps(nodes@, root) is Some && steps_ready(
                scene_steps(nodes@, root).unwrap(),
                nodes@,
                bindings@,
                meshes@,
            ) ==> r == Ok::<bool, SceneError>(true) && *final(self) is Built && placements_match(
                final(self)->Built_0@,
                scene_steps(nodes@, root).unwrap(),
                nodes@,
                bindings@,
                meshes@,
                layers@,
            ),
    {
        if let RigSlot::Built(_) = self {
            return Ok(false);
        }
        match perpare_player_data(nodes, root, bindings, meshes, layers) {
            Ok(placements) => {
                *self = RigSlot::Built(placements);
                Ok(true)
            },
            Err(e) => Err(e),
        }
    }
}

} // verus!
