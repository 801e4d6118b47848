//! The recursion bound of the tracer: how deep secondary rays are followed,
//! and what that bound means for the work one primary ray can cause.

use vstd::prelude::*;

verus! {

/// The deepest level at which a ray is still traced. The primary ray is at
/// depth 0; a reflected or refracted ray is one deeper than the ray that set
/// it off.
pub const MAX_DEPTH: u32 = 3;

/// What becomes of a ray at a given depth.
#[derive(Clone, Copy, Debug, PartialEq, Eq, Structural)]
pub enum Cast {
    /// The ray is too deep: it is answered with the background colour, before
    /// the scene is looked at.
    Background,
    /// The ray is traced; the rays it sets off are cast at `next_depth`.
    Trace { next_depth: u32 },
}

/// The decision for a ray at `depth`.
pub open spec fn spec_enter(depth: u32) -> Cast {
    if depth > MAX_DEPTH {
        Cast::Background
    } else {
        Cast::Trace { next_depth: (depth + 1) as u32 }
    }
}

/// Decides whether a ray at `depth` is traced.
pub fn enter(depth: u32) -> (cast: Cast)
    ensures
        cast == spec_enter(depth),
{
    if depth > MAX_DEPTH {
        Cast::Background
    } else {
        Cast::Trace { next_depth: depth + 1 }
    }
}

/// The casts that one ray causes: the cast itself and, below it, those of the
/// reflected and of the refracted ray it set off, if any.
pub enum CallTree {
    /// A cast that sets off no further ray.
    Leaf,
    /// A cast that sets off a reflected ray, a refracted ray or both.
    Node { reflected: Option<Box<CallTree>>, refracted: Option<Box<CallTree>> },
}

/// Whether the bound allows `tree` for a ray at `depth`: only a traced ray
/// sets off others, and it sets them off one level deeper.
pub open spec fn allowed(tree: CallTree, depth: u32) -> bool
    decreases tree,
{
    match tree {
        CallTree::Leaf => true,
        CallTree::Node { reflected, refracted } => match spec_enter(depth) {
            Cast::Background => false,
            Cast::Trace { next_depth } => {
                &&& reflected matches Some(below) ==> allowed(*below, next_depth)
                &&& refracted matches Some(below) ==> allowed(*below, next_depth)
            },
        },
    }
}

/// The number of casts on the longest chain of nested casts in `tree`.
pub open spec fn nesting(tree: CallTree) -> nat
    decreases tree,
{
    match tree {
        CallTree::Leaf => 1,
        CallTree::Node { reflected, refracted } => {
            let left: nat = match reflected {
                Some(below) => nesting(*below),
                None => 0,
            };
            let right: nat = match refracted {
                Some(below) => nesting(*below),
                None => 0,
            };
            if left >= right {
                1 + left
            } else {
                1 + right
            }
        },
    }
}

/// The number of casts in `tree`.
pub open spec fn rays(tree: CallTree) -> nat
    decreases tree,
{
    match tree {
        CallTree::Leaf => 1,
        CallTree::Node { reflected, refracted } => {
            let left: nat = match reflected {
                Some(below) => rays(*below),
                None => 0,
            };
            let right: nat = match refracted {
                Some(below) => rays(*below),
                None => 0,
            };
            1 + left + right
        },
    }
}

/// The most casts a ray at `depth` can cause, itself included: one if it is
/// too deep, otherwise itself and twice what a ray one level deeper can cause.
pub open spec fn ray_budget(depth: nat) -> nat
    decreases MAX_DEPTH + 1 - depth,
{
    if depth > MAX_DEPTH {
        1
    } else {
        1 + 2 * ray_budget(depth + 1)
    }
}

/// Recursion ends: whatever the scene, a ray at `depth` causes a chain of at
/// most `MAX_DEPTH + 2 - depth` nested casts (one, if it is deeper than that),
/// and no more than `ray_budget(depth)` casts in all.
pub proof fn lemma_call_tree_bounded(tree: CallTree, depth: u32)
    requires
        allowed(tree, depth),
    ensures
        depth <= MAX_DEPTH ==> nesting(tree) <= MAX_DEPTH + 2 - depth,
        depth > MAX_DEPTH ==> nesting(tree) == 1,
        rays(tree) <= ray_budget(depth as nat),
    decreases tree,
{
    match tree {
        CallTree::Leaf => {},
        CallTree::Node { reflected, refracted } => {
            if let Some(below) = reflected {
                lemma_call_tree_bounded(*below, (depth + 1) as u32);
            }
            if let Some(below) = refracted {
                lemma_call_tree_bounded(*below, (depth + 1) as u32);
            }
        },
    }
}

/// A primary ray causes at most five nested casts and 31 casts in all.
pub proof fn lemma_primary_ray_bounded(tree: CallTree)
    requires
        allowed(tree, 0),
    ensures
        nesting(tree) <= 5,
        rays(tree) <= 31,
{
    lemma_call_tree_bounded(tree, 0);
    reveal_with_fuel(ray_budget, 6);
}

} // verus!
