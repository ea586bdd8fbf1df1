//! How a thing of the drawing is coloured: by how much freedom it has left,
//! element by element — a contour can be nailed down while its neighbour is
//! still floating, and that is what tells the user what is left to do.

use vstd::prelude::*;

use crate::model::PointId;

verus! {

/// The colour a trait or a round is drawn in, by the role it plays.
#[derive(Clone, Copy, Debug, PartialEq, Eq, Hash, Structural)]
pub enum Tint {
    /// Held where it is by a rule that fixes it.
    Fixed,
    /// Still free to move.
    Free,
    /// Settled by what the drawing holds.
    Settled,
    /// Part of a sketch that is not the one being edited.
    Inactive,
    /// Selected.
    Highlight,
}

/// How a trait or a round is drawn: its colour, whether it is drawn thinner
/// (a sketch not being edited), and whether it is drawn wider (selected).
#[derive(Clone, Copy, Debug, PartialEq, Eq, Hash, Structural)]
pub struct Look {
    pub tint: Tint,
    pub thin: bool,
    pub widened: bool,
}

/// Whether a point is settled, by what the drawing says of each point in
/// rank order; a point it says nothing of is not.
pub open spec fn settled_at_spec(settled: Seq<bool>, point: PointId) -> bool {
    point.0 < settled.len() && settled[point.0 as int]
}

pub fn settled_at(settled: &Vec<bool>, point: PointId) -> (r: bool)
    ensures
        r == settled_at_spec(settled@, point),
{
    point.0 < settled.len() && settled[point.0]
}

/// The look of a trait or a round: `fixed` when a rule fixes it, `active`
/// when its sketch is the one being edited, `settled` when its points are
/// (both ends of a trait, the centre of a round), `selected` when the
/// selection tool holds it. A fixed thing keeps its colour and its width in
/// any sketch; being selected is shown over everything else.
pub open spec fn look_spec(fixed: bool, active: bool, settled: bool, selected: bool) -> Look {
    let tint = if selected {
        Tint::Highlight
    } else if fixed {
        Tint::Fixed
    } else if !active {
        Tint::Inactive
    } else if settled {
        Tint::Settled
    } else {
        Tint::Free
    };
    Look { tint, thin: !fixed && !active, widened: selected }
}

pub fn look(fixed: bool, active: bool, settled: bool, selected: bool) -> (r: Look)
    ensures
        r == look_spec(fixed, active, settled, selected),
{
    let tint = if selected {
        Tint::Highlight
    } else if fixed {
        Tint::Fixed
    } else if !active {
        Tint::Inactive
    } else if settled {
        Tint::Settled
    } else {
        Tint::Free
    };
    Look { tint, thin: !fixed && !active, widened: selected }
}

/// The look of a trait, from what the drawing says of its two ends.
pub fn trait_look(settled: &Vec<bool>, ends: (PointId, PointId), fixed: bool, active: bool, selected: bool) -> (r:
    Look)
    ensures
        r == look_spec(
            fixed,
            active,
            settled_at_spec(settled@, ends.0) && settled_at_spec(settled@, ends.1),
            selected,
        ),
{
    let both = settled_at(settled, ends.0) && settled_at(settled, ends.1);
    look(fixed, active, both, selected)
}

} // verus!
