//! Control of the recursive cast and the choice among hits.
//!
//! A cast alternates vector work with decisions. The vector work belongs to
//! the caller; the decisions are the functions of this module. Distances
//! reach them as unsigned keys that order the way the distances do, so a
//! smaller key is a nearer hit.

use vstd::prelude::*;
use crate::color::Color;

verus! {

/// The deepest level at which a ray is still traced.
pub const MAX_DEPTH: u32 = 6;

/// What the caller reports to `cast_step`.
#[derive(Debug, Clone, Copy, PartialEq, Eq, Structural)]
pub enum CastEvent {
    /// A ray is about to be cast.
    Enter,
    /// No primitive is hit.
    Miss,
    /// The closest surface, by the emissive colour of its material.
    Hit(Color),
}

/// What the caller does next.
#[derive(Debug, Clone, Copy, PartialEq, Eq, Structural)]
pub enum CastAction {
    /// The cast is over and has this colour.
    Return(Color),
    /// Look for the closest hit and report `Miss` or `Hit`.
    Resolve,
    /// The cast has the colour of the environment.
    Environment,
    /// Shade the surface; its secondary rays are cast at `depth`.
    Shade { depth: u32 },
}

/// The action that follows `event` in a cast at `depth`.
pub open spec fn next_action(depth: u32, event: CastEvent) -> CastAction {
    if depth > MAX_DEPTH {
        CastAction::Return(Color::black())
    } else {
        match event {
            CastEvent::Enter => CastAction::Resolve,
            CastEvent::Miss => CastAction::Environment,
            CastEvent::Hit(emissive) => if emissive != Color::black() {
                CastAction::Return(emissive)
            } else {
                CastAction::Shade { depth: (depth + 1) as u32 }
            },
        }
    }
}

/// One decision of a cast at `depth`.
///
/// Beyond `MAX_DEPTH` every cast is black, whatever the scene holds: this
/// bounds the recursion between surfaces that mirror each other. Within the
/// bound a ray that hits nothing takes the environment's colour, a light
/// emitting surface shows its emissive colour unshaded, and any other
/// surface is shaded with secondary rays one level deeper.
pub fn cast_step(depth: u32, event: CastEvent) -> (action: CastAction)
    ensures
        action == next_action(depth, event),
        depth > MAX_DEPTH ==> action == CastAction::Return(Color::black()),
        action matches CastAction::Shade { depth: deeper } ==> deeper == depth + 1,
{
    if depth > MAX_DEPTH {
        return CastAction::Return(Color::black());
    }
    match event {
        CastEvent::Enter => CastAction::Resolve,
        CastEvent::Miss => CastAction::Environment,
        CastEvent::Hit(emissive) => {
            if emissive != Color::black() {
                CastAction::Return(emissive)
            } else {
                CastAction::Shade { depth: depth + 1 }
            }
        },
    }
}

/// The number of levels that a cast at `depth` can still descend.
pub open spec fn levels_left(depth: u32) -> nat {
    if depth > MAX_DEPTH {
        0
    } else {
        (MAX_DEPTH + 1 - depth) as nat
    }
}

/// A cast ends: whenever a step asks for shading, the secondary rays are
/// one level deeper and have one level less left, and with no level left
/// the step returns black.
pub proof fn cast_descends(depth: u32, event: CastEvent)
    ensures
        next_action(depth, event) matches CastAction::Shade { depth: deeper } ==> deeper == depth
            + 1 && levels_left(deeper) + 1 == levels_left(depth),
        levels_left(depth) == 0 ==> next_action(depth, event) == CastAction::Return(
            Color::black(),
        ),
{
}

/// `i` is the first entry of `distances` that holds the smallest key.
pub open spec fn is_closest(distances: Seq<Option<u32>>, i: int) -> bool {
    &&& 0 <= i < distances.len()
    &&& distances[i] is Some
    &&& forall|j: int|
        0 <= j < distances.len() && (#[trigger] distances[j]) is Some ==> distances[i]->0
            <= distances[j]->0
    &&& forall|j: int|
        0 <= j < i && (#[trigger] distances[j]) is Some ==> distances[i]->0 < distances[j]->0
}

/// No entry of `distances` holds a hit.
pub open spec fn all_miss(distances: Seq<Option<u32>>) -> bool {
    forall|j: int| 0 <= j < distances.len() ==> (#[trigger] distances[j]) is None
}

/// Some entry of `distances` holds a hit nearer than `limit`.
pub open spec fn any_nearer(distances: Seq<Option<u32>>, limit: u32) -> bool {
    exists|j: int|
        0 <= j < distances.len() && (#[trigger] distances[j]) is Some && distances[j]->0 < limit
}

/// Picks the closest hit among the primitives' answers to one ray.
///
/// `distances[i]` is the key of primitive `i`'s hit, or `None` where the ray
/// misses it. The result is the index of the smallest key; among equal keys
/// the first one wins, so the order of the primitives decides ties.
pub fn find_closest(distances: &[Option<u32>]) -> (found: Option<usize>)
    ensures
        found is None <==> all_miss(distances@),
        found matches Some(i) ==> is_closest(distances@, i as int),
{
    let mut found: Option<usize> = None;
    let mut nearest: u32 = 0;
    let mut i: usize = 0;
    while i < distances.len()
        invariant
            i <= distances.len(),
            found is None <==> all_miss(distances@.take(i as int)),
            found matches Some(k) ==> k < i && is_closest(distances@.take(i as int), k as int)
                && distances@[k as int] == Some(nearest),
        decreases distances.len() - i,
    {
        match distances[i] {
            Some(d) => {
                let nearer = match found {
                    None => true,
                    Some(_) => d < nearest,
                };
                if nearer {
                    found = Some(i);
                    nearest = d;
                }
            },
            None => {},
        }
        i += 1;
    }
    assert(distances@.take(i as int) == distances@);
    found
}

/// Tells whether anything stands between a point and a light.
///
/// `distances` are the primitives' answers to the ray from the point toward
/// the light, `limit` is the key of the light's own distance. The point is
/// shadowed when some hit is strictly nearer than the light.
pub fn occluded(distances: &[Option<u32>], limit: u32) -> (shadowed: bool)
    ensures
        shadowed <==> any_nearer(distances@, limit),
{
    let mut i: usize = 0;
    while i < distances.len()
        invariant
            i <= distances.len(),
            !any_nearer(distances@.take(i as int), limit),
        decreases distances.len() - i,
    {
        if let Some(d) = distances[i] {
            if d < limit {
                return true;
            }
        }
        i += 1;
    }
    assert(distances@.take(i as int) == distances@);
    false
}

/// Only one index is the closest hit of a list of answers.
pub proof fn closest_is_unique(distances: Seq<Option<u32>>, i: int, j: int)
    requires
        is_closest(distances, i),
        is_closest(distances, j),
    ensures
        i == j,
{
}

} // verus!
