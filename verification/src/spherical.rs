//! Relationships between spherical loops.

use vstd::prelude::*;

verus! {

/// The topological relationship between two loops on a sphere.
///
/// This assumes both loops are simple; the relationship between self-intersecting loops is
/// not well-defined by this type.
#[derive(Debug, Clone, Copy, PartialEq, Eq, Structural)]
pub enum LoopRelation {
    /// The loops share no points at all — neither boundary nor interior overlaps.
    Disjoint,
    /// The loops' boundaries touch or overlap at one or more points, but neither loop's
    /// interior extends into the other's — e.g. they share an edge, or meet at a single vertex,
    /// like two adjacent countries.
    Touching,
    /// The loops' boundaries cross transversally: each loop has some interior area inside the
    /// other and some outside.
    Intersecting,
    /// `other`'s interior lies entirely within `self`'s interior.
    Containing,
    /// `self`'s interior lies entirely within `other`'s interior.
    Within,
    /// The two loops share the same boundary (same vertices, allowing for a different
    /// starting vertex or winding direction).
    Equal,
}

/// The relation of the loops seen from the other loop: containing and within trade places.
pub open spec fn converse(r: LoopRelation) -> LoopRelation {
    match r {
        LoopRelation::Containing => LoopRelation::Within,
        LoopRelation::Within => LoopRelation::Containing,
        _ => r,
    }
}

impl LoopRelation {
    /// Decides the relation of two loops whose edges do not cross and which are not equal,
    /// from whether a vertex of the first loop lies inside the second (`self_in_other`),
    /// whether a vertex of the second lies inside the first (`other_in_self`) and whether
    /// their boundaries touch. Both containments cannot hold at once without a crossing.
    pub fn from_containment(self_in_other: bool, other_in_self: bool, any_touch: bool) -> (r:
        LoopRelation)
        requires
            !(self_in_other && other_in_self),
        ensures
            r == (if self_in_other {
                LoopRelation::Within
            } else if other_in_self {
                LoopRelation::Containing
            } else if any_touch {
                LoopRelation::Touching
            } else {
                LoopRelation::Disjoint
            }),
    {
        match (self_in_other, other_in_self, any_touch) {
            (true, false, _) => LoopRelation::Within,
            (false, true, _) => LoopRelation::Containing,
            (false, false, true) => LoopRelation::Touching,
            (false, false, false) => LoopRelation::Disjoint,
            (true, true, _) => LoopRelation::Within,
        }
    }

    /// Whether loops so related share at least one boundary or interior point.
    pub fn intersects(&self) -> (r: bool)
        ensures
            r == !(*self matches LoopRelation::Disjoint),
    {
        !matches!(self, LoopRelation::Disjoint)
    }

    /// Whether the second loop's interior lies entirely within the first's (or they are
    /// equal).
    pub fn contains_loop(&self) -> (r: bool)
        ensures
            r == (*self == LoopRelation::Containing || *self == LoopRelation::Equal),
    {
        matches!(self, LoopRelation::Containing | LoopRelation::Equal)
    }

    /// Whether the loops' boundaries touch but their interiors don't overlap.
    pub fn touches(&self) -> (r: bool)
        ensures
            r == (*self matches LoopRelation::Touching),
    {
        matches!(self, LoopRelation::Touching)
    }
}

/// Looking from the other loop swaps the two containment tests, and gives the converse
/// relation.
pub proof fn lemma_from_containment_converse(self_in_other: bool, other_in_self: bool, any_touch: bool)
    requires
        !(self_in_other && other_in_self),
    ensures
        ({
            let ab = if self_in_other {
                LoopRelation::Within
            } else if other_in_self {
                LoopRelation::Containing
            } else if any_touch {
                LoopRelation::Touching
            } else {
                LoopRelation::Disjoint
            };
            let ba = if other_in_self {
                LoopRelation::Within
            } else if self_in_other {
                LoopRelation::Containing
            } else if any_touch {
                LoopRelation::Touching
            } else {
                LoopRelation::Disjoint
            };
            ba == converse(ab)
        }),
{
}

} // verus!
