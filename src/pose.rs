//! Finding the joints of a rig in an entity hierarchy.
use std::collections::{HashMap, HashSet};
use vstd::prelude::*;

verus! {

broadcast use vstd::std_specs::hash::group_hash_axioms;

/// Registers the pose editor; the editor itself lives with the engine.
pub struct PoseEditPlugin;

/// The first entity below `root`, depth first and in child order, that is
/// `marked`; at most `fuel` levels down. An entity absent from `children` has
/// no children.
pub open spec fn find_below(
    children: Map<u64, Vec<u64>>,
    marked: Set<u64>,
    root: u64,
    fuel: nat,
) -> Option<u64>
    decreases fuel, 0nat,
{
    if fuel == 0 || !children.contains_key(root) {
        None
    } else {
        find_among(children, marked, children[root]@, (fuel - 1) as nat)
    }
}

/// The first entity of `list`, or below it, that is `marked`.
pub open spec fn find_among(
    children: Map<u64, Vec<u64>>,
    marked: Set<u64>,
    list: Seq<u64>,
    fuel: nat,
) -> Option<u64>
    decreases fuel, list.len(),
{
    if list.len() == 0 {
        None
    } else if marked.contains(list[0]) {
        Some(list[0])
    } else {
        match find_below(children, marked, list[0], fuel) {
            Some(e) => Some(e),
            None => find_among(children, marked, list.drop_first(), fuel),
        }
    }
}

fn search(
    children: &HashMap<u64, Vec<u64>>,
    marked: &HashSet<u64>,
    root: u64,
    fuel: usize,
) -> (r: Option<u64>)
    ensures
        r == find_below(children@, marked@, root, fuel as nat),
    decreases fuel, 0nat,
{
    if fuel == 0 {
        return None;
    }
    match children.get(&root) {
        Some(list) => {
            assert(list@.subrange(0, list@.len() as int) =~= list@);
            search_among(children, marked, list, 0, fuel - 1)
        },
        None => None,
    }
}

fn search_among(
    children: &HashMap<u64, Vec<u64>>,
    marked: &HashSet<u64>,
    list: &Vec<u64>,
    start: usize,
    fuel: usize,
) -> (r: Option<u64>)
    requires
        start <= list@.len(),
    ensures
        r == find_among(children@, marked@, list@.subrange(start as int, list@.len() as int), fuel as nat),
    decreases fuel, list@.len() - start,
{
    let ghost rest = list@.subrange(start as int, list@.len() as int);
    if start == list.len() {
        return None;
    }
    assert(rest[0] == list@[start as int]);
    assert(rest.drop_first() =~= list@.subrange(start + 1, list@.len() as int));
    let e = list[start];
    if marked.contains(&e) {
        return Some(e);
    }
    match search(children, marked, e, fuel) {
        Some(found) => Some(found),
        None => search_among(children, marked, list, start + 1, fuel),
    }
}

/// The first marked entity below `root`, depth first and in child order. A
/// hierarchy without cycles is no deeper than one more than the number of
/// entities that have children, which bounds the search.
pub fn find_entity(
    root: u64,
    children: &HashMap<u64, Vec<u64>>,
    marked: &HashSet<u64>,
) -> (r: Result<u64, ()>)
    requires
        children@.len() < usize::MAX,
    ensures
        match find_below(children@, marked@, root, children@.len() + 1) {
            Some(e) => r == Ok::<u64, ()>(e),
            None => r == Err::<u64, ()>(()),
        },
{
    match search(children, marked, root, children.len() + 1) {
        Some(e) => Ok(e),
        None => Err(()),
    }
}

} // verus!
