//! Driving the camera: which gesture a drag is, who holds it, what a
//! trackpad scroll means, and when the orientation cube takes the click.

use vstd::prelude::*;

verus! {

/// A mouse button a gesture can be bound to.
#[derive(Clone, Copy, Debug, PartialEq, Eq, Hash, Structural)]
pub enum PointerButton {
    Primary,
    Middle,
    Secondary,
}

/// A button and the modifiers that must be held with it.
#[derive(Clone, Copy, Debug, PartialEq, Eq, Hash, Structural)]
pub struct Binding {
    pub button: PointerButton,
    pub shift: bool,
    pub ctrl: bool,
    pub alt: bool,
}

/// What the pointer and the keyboard hold this frame.
#[derive(Clone, Copy, Debug, PartialEq, Eq, Structural)]
pub struct Held {
    pub primary: bool,
    pub middle: bool,
    pub secondary: bool,
    pub shift: bool,
    pub command: bool,
    pub alt: bool,
}

/// A drag of the view.
#[derive(Clone, Copy, Debug, PartialEq, Eq, Hash, Structural)]
pub enum Drag {
    Orbit,
    Pan,
}

/// What a two-finger scroll is mapped to.
#[derive(Clone, Copy, Debug, PartialEq, Eq, Hash, Structural)]
pub enum TrackpadGesture {
    Pan,
    Orbit,
    Zoom,
    Ignore,
}

pub open spec fn button_down(held: Held, button: PointerButton) -> bool {
    match button {
        PointerButton::Primary => held.primary,
        PointerButton::Middle => held.middle,
        PointerButton::Secondary => held.secondary,
    }
}

/// A binding is held when its button is down and the modifiers are exactly
/// the ones it names — no more, no fewer.
pub open spec fn binding_held(binding: Binding, held: Held) -> bool {
    &&& button_down(held, binding.button)
    &&& held.shift == binding.shift
    &&& held.command == binding.ctrl
    &&& held.alt == binding.alt
}

/// Whether any of `bindings` is held.
pub fn any_held(bindings: &Vec<Binding>, held: Held) -> (r: bool)
    ensures
        r == exists|i: int| 0 <= i < bindings@.len() && binding_held(#[trigger] bindings@[i], held),
{
    let mut i: usize = 0;
    while i < bindings.len()
        invariant
            i <= bindings.len(),
            forall|j: int| 0 <= j < i ==> !binding_held(#[trigger] bindings@[j], held),
        decreases bindings.len() - i,
    {
        let binding = bindings[i];
        let down = match binding.button {
            PointerButton::Primary => held.primary,
            PointerButton::Middle => held.middle,
            PointerButton::Secondary => held.secondary,
        };
        if down && held.shift == binding.shift && held.command == binding.ctrl && held.alt
            == binding.alt {
            return true;
        }
        i += 1;
    }
    false
}

/// The drag the bindings call for this frame: an orbit before a pan, when
/// both happen to be held.
pub fn wanted(orbit: &Vec<Binding>, pan: &Vec<Binding>, held: Held) -> (r: Option<Drag>)
    ensures
        r == if exists|i: int| 0 <= i < orbit@.len() && binding_held(#[trigger] orbit@[i], held) {
            Some(Drag::Orbit)
        } else if exists|i: int| 0 <= i < pan@.len() && binding_held(#[trigger] pan@[i], held) {
            Some(Drag::Pan)
        } else {
            None
        },
{
    if any_held(orbit, held) {
        Some(Drag::Orbit)
    } else if any_held(pan, held) {
        Some(Drag::Pan)
    } else {
        None
    }
}

/// Who holds the view after this frame.
///
/// Only a drag that started over the canvas takes control, and never over the
/// cube; once it has control it keeps it — the kind it started as — for as
/// long as a binding is held, even when the cursor leaves the canvas.
pub open spec fn in_control_spec(
    current: Option<Drag>,
    wanted: Option<Drag>,
    hovered: bool,
    over_cube: bool,
) -> Option<Drag> {
    match (current, wanted) {
        (Some(_), None) => None,
        (Some(active), Some(_)) => Some(active),
        (None, Some(new)) => if hovered && !over_cube {
            Some(new)
        } else {
            None
        },
        (None, None) => None,
    }
}

pub fn in_control(current: Option<Drag>, wanted: Option<Drag>, hovered: bool, over_cube: bool) -> (r:
    Option<Drag>)
    ensures
        r == in_control_spec(current, wanted, hovered, over_cube),
{
    match (current, wanted) {
        (Some(_), None) => None,
        (Some(active), Some(_)) => Some(active),
        (None, Some(new)) => if hovered && !over_cube {
            Some(new)
        } else {
            None
        },
        (None, None) => None,
    }
}

/// A drag in control stays the one it started as while a binding is held,
/// wherever the cursor goes; none starts over the cube or off the canvas; and
/// letting go of every binding always hands the view back.
pub proof fn lemma_control_is_kept(
    current: Option<Drag>,
    wanted: Option<Drag>,
    hovered: bool,
    over_cube: bool,
)
    ensures
        current is Some && wanted is Some ==> in_control_spec(current, wanted, hovered, over_cube)
            == current,
        current is None && (over_cube || !hovered) ==> in_control_spec(
            current,
            wanted,
            hovered,
            over_cube,
        ) is None,
        wanted is None ==> in_control_spec(current, wanted, hovered, over_cube) is None,
{
}

/// The cube's zone under the pointer, which is only looked for while no drag
/// holds the view and the pointer is over the cube.
pub fn hovered_zone<T>(dragging: bool, over_cube: bool, under: Option<T>) -> (r: Option<T>)
    ensures
        r == if !dragging && over_cube {
            under
        } else {
            None
        },
{
    if !dragging && over_cube {
        under
    } else {
        None
    }
}

/// What a two-finger scroll does: the gesture set for it, or the one set for
/// it with shift held.
pub fn trackpad_gesture(shift: bool, scroll: TrackpadGesture, shift_scroll: TrackpadGesture) -> (r:
    TrackpadGesture)
    ensures
        r == if shift {
            shift_scroll
        } else {
            scroll
        },
{
    if shift {
        shift_scroll
    } else {
        scroll
    }
}

} // verus!
