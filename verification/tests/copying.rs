use cao_app::copying::{
    axis_at, filled, gather, hold_is_done, lay, take_hold, turned, ChosenAxis, CopyPrompt,
    CopyState, CopyTool, Laid, Opened, Repeats, Target,
};
use cao_app::model::{CircleId, Element, PointId, SegmentId, Selection, SketchAxis};

/// The four fields as a value a person reads: a field opening on a span opens
/// on how wide what is held stands, and one opening on a number on that
/// number.
fn as_read(opened: Option<[Option<Opened<f64>>; 4]>) -> Vec<Option<f64>> {
    match opened {
        None => vec![None; 4],
        Some(fields) => fields
            .iter()
            .map(|field| match field {
                Some(Opened::Number(n)) => Some(*n as f64),
                Some(Opened::Span(s)) => Some(*s),
                None => None,
            })
            .collect(),
    }
}

/// The four fields as Enter leaves them, one circle held, the drawing
/// reading how wide it stands as `span`.
fn fields_opened_by(tool: CopyTool, span: Option<f64>) -> Vec<Option<f64>> {
    let (mut state, _) = take_hold(tool, vec![Element::Circle(CircleId(0))]);
    let (opened, _) = hold_is_done(&mut state, tool, span).expect("something is held");
    assert!(state.naming_the_target);
    as_read(opened)
}

#[test]
fn a_grid_opens_on_a_step_the_hold_fits_in_and_one_copy_each_way() {
    // A circle of radius two stands four units across.
    assert_eq!(
        fields_opened_by(CopyTool::RectangularPattern, Some(4.0)),
        vec![Some(4.0), Some(2.0), Some(4.0), Some(2.0)]
    );
}

#[test]
fn a_circular_pattern_opens_on_a_quarter_turn_four_times_round() {
    assert_eq!(
        fields_opened_by(CopyTool::CircularPattern, Some(4.0)),
        vec![Some(90.0), Some(4.0), None, None]
    );
}

#[test]
fn the_mirror_opens_no_fields_at_all() {
    assert_eq!(fields_opened_by(CopyTool::Mirror, Some(4.0)), vec![None; 4]);
}

#[test]
fn a_step_opens_in_the_millimetres_its_field_is_labelled_with() {
    // Five millimetres to the unit, and the circle four units across: the
    // drawing hands over the span already in millimetres.
    let opened = fields_opened_by(CopyTool::RectangularPattern, Some(20.0));
    assert_eq!(opened[0], Some(20.0));
    assert_eq!(opened[2], Some(20.0));
}

#[test]
fn a_grid_with_no_drawing_to_read_opens_its_steps_empty() {
    assert_eq!(
        fields_opened_by(CopyTool::RectangularPattern, None),
        vec![None, Some(2.0), None, Some(2.0)]
    );
}

#[test]
fn enter_with_nothing_held_leaves_the_tool_gathering() {
    let (mut state, said) = take_hold(CopyTool::Mirror, Vec::new());
    assert_eq!(said, CopyPrompt::MirrorTakeElements);
    assert!(hold_is_done(&mut state, CopyTool::Mirror, Some(1.0)).is_none());
    assert!(!state.naming_the_target);
}

#[test]
fn enter_asks_each_tool_for_the_one_thing_it_needs() {
    for (tool, asked) in [
        (CopyTool::Mirror, CopyPrompt::MirrorClickTheAxis),
        (CopyTool::CircularPattern, CopyPrompt::PatternClickTheCentre),
        (CopyTool::RectangularPattern, CopyPrompt::PatternClickTheDirection),
    ] {
        let (mut state, _) = take_hold(tool, vec![Element::Point(PointId(3))]);
        let (_, said) = hold_is_done(&mut state, tool, Some(1.0)).unwrap();
        assert_eq!(said, asked);
    }
}

#[test]
fn a_click_on_something_held_drops_it_and_on_something_else_takes_it() {
    let circle = Element::Circle(CircleId(0));
    let segment = Element::Segment(SegmentId(2));
    let (mut state, _) = take_hold(CopyTool::CircularPattern, vec![circle]);

    let said = gather(&mut state, CopyTool::CircularPattern, Some(Selection::Element(segment)));
    assert_eq!(said, Some(CopyPrompt::PatternTakeElements));
    assert_eq!(state.held, vec![circle, segment]);

    gather(&mut state, CopyTool::CircularPattern, Some(Selection::Element(circle)));
    assert_eq!(state.held, vec![segment]);

    assert_eq!(gather(&mut state, CopyTool::CircularPattern, None), None);
    assert_eq!(state.held, vec![segment]);
}

#[test]
fn tests_a_click_on_a_trait_names_that_trait_as_the_axis() {
    assert_eq!(axis_at(Some(SegmentId(0)), None), Some(ChosenAxis::Trait(SegmentId(0))));
}

#[test]
fn tests_a_click_on_nothing_but_a_sketch_axis_names_that_axis() {
    assert_eq!(axis_at(None, Some(SketchAxis::U)), Some(ChosenAxis::Sketch(SketchAxis::U)));
}

#[test]
fn tests_a_trait_wins_over_the_axis_it_is_lying_on() {
    assert_eq!(
        axis_at(Some(SegmentId(0)), Some(SketchAxis::U)),
        Some(ChosenAxis::Trait(SegmentId(0))),
        "the trait is the smaller target, and the one the user drew"
    );
}

#[test]
fn tests_a_click_far_from_anything_names_no_axis() {
    assert_eq!(axis_at(None, None), None);
}

#[test]
fn mirror_a_click_on_a_trait_names_that_trait_as_the_axis() {
    assert_eq!(axis_at(Some(SegmentId(0)), None), Some(ChosenAxis::Trait(SegmentId(0))));
}

#[test]
fn mirror_a_click_on_nothing_but_a_sketch_axis_names_that_axis() {
    assert_eq!(axis_at(None, Some(SketchAxis::U)), Some(ChosenAxis::Sketch(SketchAxis::U)));
}

#[test]
fn mirror_a_trait_wins_over_the_axis_it_is_lying_on() {
    assert_eq!(
        axis_at(Some(SegmentId(0)), Some(SketchAxis::U)),
        Some(ChosenAxis::Trait(SegmentId(0)))
    );
}

#[test]
fn mirror_a_click_far_from_anything_names_no_axis() {
    assert_eq!(axis_at(None, None), None);
}

/// A count as typed, rounded to a whole number of copies.
fn count(typed: Option<f64>) -> Option<usize> {
    typed.map(|value| value.round() as usize)
}

#[test]
fn a_pattern_waits_for_both_its_values() {
    assert_eq!(turned(Some(30.0), count(None)), None);
    assert_eq!(turned::<f64>(None, count(Some(6.0))), None);
    assert_eq!(turned(Some(30.0), count(Some(6.0))), Some((30.0, 6)));
}

#[test]
fn a_grid_waits_for_all_four_of_its_values() {
    let steps = [Some(20.0), Some(15.0)];
    let counts = [count(Some(4.0)), count(Some(3.0))];

    assert_eq!(
        filled(steps[0], counts[0], steps[1], counts[1]),
        Some((Repeats { step: 20.0, count: 4 }, Repeats { step: 15.0, count: 3 }))
    );
    for rank in 0..4 {
        let mut s = steps;
        let mut c = counts;
        match rank {
            0 => s[0] = None,
            1 => c[0] = None,
            2 => s[1] = None,
            _ => c[1] = None,
        }
        assert_eq!(filled(s[0], c[0], s[1], c[1]), None, "value {rank} left empty");
    }
}

#[test]
fn a_grid_of_one_by_one_is_no_pattern_at_all() {
    assert_eq!(filled(Some(20.0), count(Some(1.0)), Some(15.0), count(Some(1.0))), None);
    assert!(
        filled(Some(20.0), count(Some(4.0)), Some(15.0), count(Some(1.0))).is_some(),
        "a single row is a pattern like any other"
    );
}

#[test]
fn a_count_under_two_is_no_pattern_at_all() {
    assert_eq!(turned(Some(30.0), count(Some(1.0))), None);
    assert_eq!(
        turned(Some(30.0), count(Some(1.6))),
        Some((30.0, 2)),
        "a count is a whole number of copies, so what was typed is rounded to one"
    );
}

#[test]
fn a_grid_with_a_count_of_nothing_runs_no_way() {
    assert_eq!(filled(Some(20.0), Some(0), Some(15.0), Some(5)), None);
}

fn naming(tool: CopyTool, held: Vec<Element>) -> CopyState {
    let (mut state, _) = take_hold(tool, held);
    hold_is_done(&mut state, tool, Some(4.0)).unwrap();
    state
}

fn target(
    segment: Option<SegmentId>,
    axis: Option<SketchAxis>,
    point: Option<PointId>,
    values: [Option<f64>; 4],
) -> Target<f64> {
    Target { segment, axis, point, values, counts: values.map(count) }
}

#[test]
fn the_mirror_lays_what_was_held_across_the_trait_named_and_starts_again() {
    let held = vec![Element::Circle(CircleId(0)), Element::Point(PointId(4))];
    let mut state = naming(CopyTool::Mirror, held.clone());

    let step = lay(&mut state, CopyTool::Mirror, target(Some(SegmentId(1)), None, None, [None; 4]))
        .expect("a trait is an axis");

    assert_eq!(step.elements, held);
    assert_eq!(step.laid, Laid::Mirror { axis: ChosenAxis::Trait(SegmentId(1)) });
    assert!(state.held.is_empty());
    assert!(!state.naming_the_target);
}

#[test]
fn a_naming_click_on_nothing_asks_again_and_keeps_what_is_held() {
    let held = vec![Element::Circle(CircleId(0))];
    for (tool, asked) in [
        (CopyTool::Mirror, CopyPrompt::MirrorNeedsAnAxis),
        (CopyTool::CircularPattern, CopyPrompt::PatternNeedsACentre),
        (CopyTool::RectangularPattern, CopyPrompt::PatternNeedsADirection),
    ] {
        let mut state = naming(tool, held.clone());
        let said = lay(&mut state, tool, target(None, None, None, [Some(30.0), Some(6.0), None, None]));
        assert_eq!(said, Err(asked));
        assert_eq!(state.held, held);
        assert!(state.naming_the_target);
    }
}

#[test]
fn a_circular_pattern_turns_round_the_point_clicked() {
    let mut state = naming(CopyTool::CircularPattern, vec![Element::Circle(CircleId(0))]);

    let step = lay(
        &mut state,
        CopyTool::CircularPattern,
        target(None, None, Some(PointId(7)), [Some(30.0), Some(6.0), None, None]),
    )
    .unwrap();

    assert_eq!(
        step.laid,
        Laid::CircularPattern { centre: PointId(7), degrees: 30.0, count: 6 }
    );
}

#[test]
fn a_circular_pattern_with_a_value_missing_asks_for_its_values() {
    let mut state = naming(CopyTool::CircularPattern, vec![Element::Circle(CircleId(0))]);
    assert_eq!(
        lay(&mut state, CopyTool::CircularPattern, target(None, None, Some(PointId(7)), [Some(30.0), None, None, None])),
        Err(CopyPrompt::PatternNeedsItsValues)
    );
}

#[test]
fn a_grid_runs_along_the_direction_named() {
    let mut state = naming(CopyTool::RectangularPattern, vec![Element::Circle(CircleId(0))]);

    let step = lay(
        &mut state,
        CopyTool::RectangularPattern,
        target(None, Some(SketchAxis::V), None, [Some(20.0), Some(4.0), Some(15.0), Some(3.0)]),
    )
    .unwrap();

    assert_eq!(
        step.laid,
        Laid::RectangularPattern {
            direction: ChosenAxis::Sketch(SketchAxis::V),
            along: Repeats { step: 20.0, count: 4 },
            across: Repeats { step: 15.0, count: 3 },
        }
    );
}

#[test]
fn a_grid_one_by_one_asks_for_its_steps() {
    let mut state = naming(CopyTool::RectangularPattern, vec![Element::Circle(CircleId(0))]);
    assert_eq!(
        lay(
            &mut state,
            CopyTool::RectangularPattern,
            target(Some(SegmentId(0)), None, None, [Some(20.0), Some(1.0), Some(15.0), Some(1.0)]),
        ),
        Err(CopyPrompt::PatternNeedsItsSteps)
    );
}

#[test]
fn the_copies_shown_are_the_ones_the_naming_click_lays() {
    let held = vec![Element::Circle(CircleId(0))];
    let state = naming(CopyTool::CircularPattern, held.clone());
    let reading = || target(None, None, Some(PointId(7)), [Some(30.0), Some(6.0), None, None]);

    let shown = cao_app::copying::previewed(&state, CopyTool::CircularPattern, reading());
    let mut clicked = state.clone();
    let step = lay(&mut clicked, CopyTool::CircularPattern, reading()).unwrap();

    assert_eq!(shown, Some(step.laid));
}

#[test]
fn nothing_is_shown_while_what_is_held_is_gathered() {
    let (state, _) = take_hold(CopyTool::Mirror, vec![Element::Circle(CircleId(0))]);
    assert_eq!(
        cao_app::copying::previewed(&state, CopyTool::Mirror, target(Some(SegmentId(0)), None, None, [None; 4])),
        None
    );
    let empty = CopyState { held: vec![], naming_the_target: true };
    assert_eq!(
        cao_app::copying::previewed(&empty, CopyTool::Mirror, target(Some(SegmentId(0)), None, None, [None; 4])),
        None
    );
}
