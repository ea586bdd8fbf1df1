//! What a side or a curve pulled by the hand writes once it is let go.
//!
//! What the hand does to the drawing is the drawing's to say; what is here is
//! the step the release leaves in the history — or nothing, where the hand
//! came back to where it pressed, or where the drawing refused what it asked.

use vstd::prelude::*;

use crate::dragging::Curved;
use crate::model::{PointId, SegmentId};

verus! {

/// How far the drawing went along with a change it was asked for.
#[derive(Clone, Copy, Debug, PartialEq, Eq, Hash, Structural)]
pub enum Outcome {
    /// Exactly as asked.
    Exact,
    /// As near as its rules let it, which is not what was asked.
    BestEffort,
}

/// A shape turned about a place (`V`) by an angle (`N`).
#[derive(Clone, Debug, PartialEq)]
pub struct Turn<V, N> {
    pub points: Vec<PointId>,
    pub about: V,
    pub angle: N,
}

/// What a side pulled by the hand does: across itself it travels, along
/// itself it turns its shape.
#[derive(Clone, Debug, PartialEq)]
pub enum SideDrag<V, N> {
    Across { by: V },
    Along(Turn<V, N>),
}

/// A step a drag writes into the history of the sketch ranked `sketch`.
#[derive(Clone, Debug, PartialEq)]
pub enum Step<V, N> {
    MoveSegment { sketch: usize, segment: SegmentId, by: V },
    TurnShape { sketch: usize, turn: Turn<V, N> },
    Resize { sketch: usize, curve: Curved, reach: N },
    /// A turn and a new size written as one step, which one undo takes back.
    TurnAndResize { sketch: usize, turn: Turn<V, N>, curve: Curved, reach: N },
}

/// The step a turn writes: nothing for a turn of nothing. `turns` is whether
/// its angle is more than nothing, which the caller reads off the angle.
pub open spec fn turn_step_spec<V, N>(sketch: usize, turn: Turn<V, N>, turns: bool) -> Option<
    Step<V, N>,
> {
    if turns {
        Some(Step::TurnShape { sketch, turn })
    } else {
        None
    }
}

pub fn turn_step<V, N>(sketch: usize, turn: Turn<V, N>, turns: bool) -> (r: Option<Step<V, N>>)
    ensures
        r == turn_step_spec(sketch, turn, turns),
{
    if turns {
        Some(Step::TurnShape { sketch, turn })
    } else {
        None
    }
}

/// The step a side drag writes, or nothing when the hand came back to where
/// it pressed. `moved` is whether the hand went anywhere: how far it
/// travelled across, or how far the shape turned along.
pub open spec fn side_step_spec<V, N>(
    sketch: usize,
    side: SegmentId,
    drag: SideDrag<V, N>,
    moved: bool,
) -> Option<Step<V, N>> {
    match drag {
        SideDrag::Across { by } => if moved {
            Some(Step::MoveSegment { sketch, segment: side, by })
        } else {
            None
        },
        SideDrag::Along(turn) => turn_step_spec(sketch, turn, moved),
    }
}

pub fn side_step<V, N>(sketch: usize, side: SegmentId, drag: SideDrag<V, N>, moved: bool) -> (r:
    Option<Step<V, N>>)
    ensures
        r == side_step_spec(sketch, side, drag, moved),
{
    match drag {
        SideDrag::Across { by } => if moved {
            Some(Step::MoveSegment { sketch, segment: side, by })
        } else {
            None
        },
        SideDrag::Along(turn) => turn_step(sketch, turn, moved),
    }
}

/// The step a curve slid round its centre writes: the turn, and the size it
/// was drawn to so the place grabbed stays under the hand (`resized`), each
/// only where the drawing took it exactly — and both as one step when it took
/// both. A turn of nothing is no turn.
pub open spec fn curve_step_spec<V, N>(
    sketch: usize,
    curve: Curved,
    turn: Turn<V, N>,
    turns: bool,
    turned: Outcome,
    resized: Option<(N, Outcome)>,
) -> Option<Step<V, N>> {
    let turn_taken = turns && turned == Outcome::Exact;
    match resized {
        Some((reach, Outcome::Exact)) => if turn_taken {
            Some(Step::TurnAndResize { sketch, turn, curve, reach })
        } else {
            Some(Step::Resize { sketch, curve, reach })
        },
        _ => if turn_taken {
            Some(Step::TurnShape { sketch, turn })
        } else {
            None
        },
    }
}

pub fn curve_step<V, N>(
    sketch: usize,
    curve: Curved,
    turn: Turn<V, N>,
    turns: bool,
    turned: Outcome,
    resized: Option<(N, Outcome)>,
) -> (r: Option<Step<V, N>>)
    ensures
        r == curve_step_spec(sketch, curve, turn, turns, turned, resized),
{
    let turn_taken = turns && match turned {
        Outcome::Exact => true,
        Outcome::BestEffort => false,
    };
    match resized {
        Some((reach, Outcome::Exact)) => if turn_taken {
            Some(Step::TurnAndResize { sketch, turn, curve, reach })
        } else {
            Some(Step::Resize { sketch, curve, reach })
        },
        _ => if turn_taken {
            Some(Step::TurnShape { sketch, turn })
        } else {
            None
        },
    }
}

/// The step a curve drawn to another size writes: the new reach, always —
/// the drawing follows the hand as far as its rules let it.
pub fn resize_step<V, N>(sketch: usize, curve: Curved, reach: N) -> (r: Step<V, N>)
    ensures
        r == (Step::<V, N>::Resize { sketch, curve, reach }),
{
    Step::Resize { sketch, curve, reach }
}

/// The step a side drag writes once the drawing settled it: nothing where
/// the drawing could not do exactly what the hand asked — a step that changes
/// nothing is what the next undo would take back.
pub fn side_written<V, N>(
    sketch: usize,
    side: SegmentId,
    drag: SideDrag<V, N>,
    moved: bool,
    outcome: Outcome,
) -> (r: Option<Step<V, N>>)
    ensures
        r == if outcome == Outcome::Exact {
            side_step_spec(sketch, side, drag, moved)
        } else {
            None
        },
{
    match outcome {
        Outcome::Exact => side_step(sketch, side, drag, moved),
        Outcome::BestEffort => None,
    }
}

/// A side let go where it was pressed, and a curve whose turn came to nothing
/// and which kept its size, write nothing.
pub proof fn lemma_nothing_moved_writes_nothing<V, N>(
    sketch: usize,
    side: SegmentId,
    drag: SideDrag<V, N>,
    curve: Curved,
    turn: Turn<V, N>,
    turned: Outcome,
)
    ensures
        side_step_spec(sketch, side, drag, false) is None,
        curve_step_spec(sketch, curve, turn, false, turned, None) is None,
{
}

} // verus!
