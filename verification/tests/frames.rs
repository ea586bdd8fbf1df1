use cao_app::dragging::{drag_frame, DragAction, Grab, Phase, Press, Pulled};
use cao_app::model::{
    DimensionTarget, Element, PointId, SegmentId, Selection, Topology,
};
use cao_app::selecting::{select_frame, SelectInput, SelectState};

fn a_drawing() -> Topology {
    Topology {
        origin: PointId(0),
        segment_ends: vec![(PointId(0), PointId(1)), (PointId(2), PointId(3))],
        circle_centres: vec![],
    }
}

fn a_press() -> Press {
    Press {
        navigating: false,
        primary: true,
        letting_go: false,
        adding: false,
        group: vec![],
        point: None,
        settled: false,
        holds: 0,
        carries: vec![],
        annotation: None,
        pulled: None,
        curve: None,
    }
}

fn on_point(rank: usize) -> Press {
    Press { point: Some(PointId(rank)), ..a_press() }
}

#[test]
fn a_drag_follows_the_hand_and_writes_once_when_the_button_comes_up() {
    let drawing = a_drawing();
    let mut held = None;

    assert_eq!(drag_frame(&mut held, Phase::Started, on_point(2), &drawing), DragAction::Follow);
    assert_eq!(held, Some(Grab::Point { point: PointId(2), letting_go: false }));
    assert_eq!(drag_frame(&mut held, Phase::Dragging, a_press(), &drawing), DragAction::Follow, "the press is read once");
    assert_eq!(
        drag_frame(&mut held, Phase::Stopped, a_press(), &drawing),
        DragAction::Release(Grab::Point { point: PointId(2), letting_go: false })
    );
    assert_eq!(held, None);
    assert_eq!(drag_frame(&mut held, Phase::Stopped, a_press(), &drawing), DragAction::Nothing, "no second step");
}

#[test]
fn the_selection_and_a_box_start_following_on_the_next_frame() {
    let drawing = a_drawing();
    let mut held = None;
    let group = Press { group: vec![PointId(2), PointId(3)], ..a_press() };
    assert_eq!(drag_frame(&mut held, Phase::Started, group, &drawing), DragAction::Nothing);
    assert_eq!(held, Some(Grab::Group(vec![PointId(2), PointId(3)])));
    assert_eq!(drag_frame(&mut held, Phase::Dragging, a_press(), &drawing), DragAction::Follow);

    let mut band = None;
    assert_eq!(drag_frame(&mut band, Phase::Started, a_press(), &drawing), DragAction::Nothing);
    assert_eq!(band, Some(Grab::Band));
    assert_eq!(drag_frame(&mut band, Phase::Stopped, a_press(), &drawing), DragAction::Release(Grab::Band));
}

#[test]
fn a_frame_with_no_drag_clears_what_a_drag_left_behind() {
    let drawing = a_drawing();
    let mut held = Some(Grab::Side(SegmentId(1)));
    assert_eq!(drag_frame(&mut held, Phase::Still, a_press(), &drawing), DragAction::Nothing);
    assert_eq!(held, None);
    let orbit = Press { navigating: true, ..on_point(2) };
    assert_eq!(drag_frame(&mut held, Phase::Started, orbit, &drawing), DragAction::Nothing);
    assert_eq!(held, None, "the camera holds that drag");
    let side = Press { pulled: Some(Pulled::Side(SegmentId(1))), ..a_press() };
    assert_eq!(drag_frame(&mut held, Phase::Started, side, &drawing), DragAction::Follow);
    assert_eq!(held, Some(Grab::Side(SegmentId(1))));
}

fn frame(clicked: bool, picked: Option<Selection>, adding: bool, deleting: bool, phase: Phase) -> SelectInput {
    SelectInput { clicked, picked, adding, deleting, phase, press: a_press() }
}

#[test]
fn a_click_of_the_selection_tool_takes_what_it_lands_on_and_opens_a_dimension() {
    let drawing = a_drawing();
    let length = DimensionTarget::Length(SegmentId(1));
    let mut state = SelectState { held: vec![Selection::Element(Element::Point(PointId(2)))], grabbed: None };

    let done = select_frame(&mut state, frame(true, Some(Selection::Dimension(length)), false, false, Phase::Still), &drawing);

    assert_eq!(done.opened, Some(length));
    assert!(done.erased.is_none());
    assert_eq!(done.action, DragAction::Nothing);
    assert_eq!(state.held, vec![Selection::Dimension(length)]);
}

#[test]
fn the_delete_key_erases_everything_held_in_one_step() {
    let drawing = a_drawing();
    let rule = cao_app::model::Constraint::Parallel { first: SegmentId(0), second: SegmentId(1) };
    let mut state = SelectState {
        held: vec![Selection::Element(Element::Segment(SegmentId(1))), Selection::Rule(rule)],
        grabbed: None,
    };

    let done = select_frame(&mut state, frame(false, None, false, true, Phase::Still), &drawing);

    let step = done.erased.expect("one step");
    assert_eq!(step.elements, vec![Element::Segment(SegmentId(1))]);
    assert_eq!(step.constraints, vec![rule]);
    assert!(state.held.is_empty());

    let nothing = select_frame(&mut state, frame(false, None, false, true, Phase::Still), &drawing);
    assert!(nothing.erased.is_none(), "nothing held is nothing to delete");
}

#[test]
fn a_frame_of_the_selection_tool_without_click_or_key_is_a_frame_of_its_drag() {
    let drawing = a_drawing();
    let mut state = SelectState { held: vec![], grabbed: None };
    let start = SelectInput { press: on_point(3), ..frame(false, None, false, false, Phase::Started) };
    assert_eq!(select_frame(&mut state, start, &drawing).action, DragAction::Follow);
    let stop = frame(false, None, false, false, Phase::Stopped);
    assert_eq!(
        select_frame(&mut state, stop, &drawing).action,
        DragAction::Release(Grab::Point { point: PointId(3), letting_go: false })
    );
}
