use cao_app::corners::{preview, CornerAnswer};
use cao_app::corners::{
    ChamferClick, ChamferCut, ChamferMode, Chamfer, Corner, CornerClick, CornerEnter,
    CornerPrompt, CornerState, CornerStep, CornerTool, Cut, Field, Laying, LockedInput,
    chamfer_click, chamfer_cut, clicked, corner_click, corner_held, cut, on_enter, picks_with,
    resolved_side, takes_a_point, typed,
};
use cao_app::gathered::toggle;
use cao_app::model::{PointId, SegmentId};

fn locked(first: Option<f64>, second: Option<f64>) -> LockedInput<f64> {
    LockedInput { first, second }
}

/// A right angle: its pivot, and the two traits meeting there, one running
/// east and the other north.
fn a_right_angle() -> (SegmentId, SegmentId, PointId) {
    (SegmentId(0), SegmentId(1), PointId(0))
}

#[test]
fn tests_the_equal_mode_takes_the_one_value_typed_for_both_sides() {
    assert_eq!(
        typed(locked(Some(4.0), None), ChamferMode::Equal, false),
        Some(Chamfer::Equal(4.0)),
        "a second value would say nothing the first does not"
    );
}

#[test]
fn tests_a_mode_asking_two_values_waits_until_both_are_typed() {
    assert_eq!(typed(locked(Some(4.0), None), ChamferMode::Sided, false), None);
    assert_eq!(typed(locked(None, Some(30.0)), ChamferMode::Angled, false), None);
    assert_eq!(
        typed(locked(Some(4.0), Some(30.0)), ChamferMode::Angled, false),
        Some(Chamfer::Angled { along: 4.0, degrees: 30.0 })
    );
}

#[test]
fn a_fillet_asks_for_one_value_whatever_the_chamfer_beside_it_is_set_to() {
    assert_eq!(
        typed(locked(Some(5.0), None), ChamferMode::Sided, true),
        Some(Chamfer::Equal(5.0)),
        "a radius is a radius, and the chamfer's second field says nothing about it"
    );
}

#[test]
fn enter_with_half_a_corner_asks_for_the_other_side_rather_than_dropping_it() {
    let state = CornerState { taken: Vec::new(), half: Some(SegmentId(1)) };
    assert_eq!(on_enter(&state), CornerEnter::Waiting(CornerPrompt::ClickTheOtherSide));
    assert_eq!(CornerPrompt::ClickTheOtherSide.key(), "sketch.click_the_other_side");
}

#[test]
fn enter_with_no_side_clicked_asks_for_a_corner() {
    let state = CornerState { taken: Vec::new(), half: None };
    assert_eq!(on_enter(&state), CornerEnter::Waiting(CornerPrompt::ClickACorner));
    assert_eq!(CornerPrompt::ClickACorner.key(), "sketch.click_a_corner");
}

#[test]
fn enter_with_a_corner_taken_cuts_it() {
    let state = CornerState {
        taken: vec![Corner::Between(SegmentId(1), SegmentId(2))],
        half: None,
    };
    assert_eq!(on_enter(&state), CornerEnter::Cut);
}

#[test]
fn enter_still_cuts_when_a_side_is_half_named_beside_the_corners_taken() {
    let state = CornerState { taken: vec![Corner::At(PointId(1))], half: Some(SegmentId(3)) };
    assert_eq!(
        on_enter(&state),
        CornerEnter::Cut,
        "a side clicked by mistake does not hold back the corners already taken"
    );
}

#[test]
fn a_click_on_a_corner_point_names_both_its_sides() {
    let (along, _up, pivot) = a_right_angle();
    assert_eq!(
        clicked(true, Some(pivot), true, 2, Some(along)),
        CornerClick::Corner(Corner::At(pivot))
    );
}

#[test]
fn a_click_on_a_point_too_crowded_to_be_a_corner_asks_for_the_two_traits() {
    let (along, _up, pivot) = a_right_angle();
    assert_eq!(
        clicked(true, Some(pivot), false, 3, Some(along)),
        CornerClick::Crowded,
        "three traits leave no saying which two the cut is meant for"
    );
}

#[test]
fn an_asymmetric_mode_reads_a_click_as_a_side_even_on_a_corner_point() {
    let (along, up, pivot) = a_right_angle();
    let by_point = takes_a_point(CornerTool::Chamfer, ChamferMode::Sided);
    let read = clicked(by_point, Some(pivot), true, 2, Some(along));
    assert!(
        read == CornerClick::Side(along) || read == CornerClick::Side(up),
        "a corner taken by its point has no first side — got {read:?}"
    );
}

#[test]
fn a_click_on_a_trait_away_from_any_point_names_that_side() {
    let (along, _up, _pivot) = a_right_angle();
    assert_eq!(clicked(true, None, false, 0, Some(along)), CornerClick::Side(along));
}

#[test]
fn a_click_on_nothing_at_all_names_nothing() {
    assert_eq!(clicked(true, None, false, 0, None), CornerClick::Nothing);
}

#[test]
fn each_mode_asks_for_what_it_can_actually_take() {
    assert_eq!(
        picks_with(CornerTool::Fillet, ChamferMode::Sided).key(),
        "sketch.click_a_corner_to_round",
        "a fillet takes a corner whatever the chamfer beside it is set to"
    );
    assert_eq!(
        picks_with(CornerTool::Chamfer, ChamferMode::Equal).key(),
        "sketch.click_a_corner_to_cut"
    );
    for mode in [ChamferMode::Angled, ChamferMode::Sided] {
        assert_eq!(
            picks_with(CornerTool::Chamfer, mode).key(),
            "sketch.click_one_side_then_the_other",
            "{mode:?} measures from the side named first"
        );
    }
}

/// What the list of corners becomes when that one is clicked.
fn after_clicking(mut taken: Vec<Corner>, corner: Corner) -> Vec<Corner> {
    toggle(&mut taken, corner);
    taken
}

#[test]
fn a_second_click_on_a_corner_drops_it() {
    let taken = vec![Corner::At(PointId(1)), Corner::At(PointId(4))];
    assert_eq!(
        after_clicking(taken.clone(), Corner::At(PointId(1))),
        vec![Corner::At(PointId(4))],
        "a corner clicked twice is a corner the user changed their mind about"
    );
    assert_eq!(
        after_clicking(taken.clone(), Corner::At(PointId(7))),
        vec![Corner::At(PointId(1)), Corner::At(PointId(4)), Corner::At(PointId(7))],
        "and one clicked once joins the rest"
    );
}

#[test]
fn chamfer_the_equal_mode_takes_the_one_value_typed_for_both_sides() {
    assert_eq!(
        chamfer_cut(true, locked(Some(4.0), None), ChamferMode::Equal, true),
        ChamferCut::Lay(Chamfer::Equal(4.0)),
        "a second value would say nothing the first does not"
    );
}

#[test]
fn chamfer_a_mode_asking_two_values_waits_until_both_are_typed() {
    assert_eq!(
        chamfer_cut(true, locked(Some(4.0), None), ChamferMode::Sided, true),
        ChamferCut::AsksFor(CornerPrompt::ChamferAsksTwoDistances)
    );
    assert_eq!(
        chamfer_cut(true, locked(None, Some(30.0)), ChamferMode::Angled, true),
        ChamferCut::AsksFor(CornerPrompt::ChamferAsksADistanceAndAnAngle)
    );
    assert_eq!(
        chamfer_cut(true, locked(Some(4.0), Some(30.0)), ChamferMode::Angled, true),
        ChamferCut::Lay(Chamfer::Angled { along: 4.0, degrees: 30.0 })
    );
}

#[test]
fn a_corner_is_held_only_once_both_its_sides_have_been_clicked() {
    assert_eq!(corner_held(&Vec::new()), None);
    assert_eq!(
        corner_held(&vec![SegmentId(1)]),
        None,
        "one side is half a corner, and Enter has nothing to cut"
    );
    assert_eq!(corner_held(&vec![SegmentId(1), SegmentId(2)]), Some((SegmentId(1), SegmentId(2))));
}

#[test]
fn the_plain_chamfer_cuts_on_the_second_side_and_restarts_on_the_same_one() {
    assert_eq!(chamfer_click(&Vec::new(), SegmentId(3)), ChamferClick::FirstSide(SegmentId(3)));
    assert_eq!(
        chamfer_click(&vec![SegmentId(3)], SegmentId(5)),
        ChamferClick::Cut { first: SegmentId(3), second: SegmentId(5) }
    );
    assert_eq!(chamfer_click(&vec![SegmentId(3)], SegmentId(3)), ChamferClick::FirstSide(SegmentId(3)));
    assert_eq!(
        chamfer_cut(false, locked(Some(4.0), None), ChamferMode::Equal, true),
        ChamferCut::NeedsACorner
    );
    assert_eq!(
        chamfer_cut(true, locked(Some(40.0), None), ChamferMode::Equal, false),
        ChamferCut::TooLong
    );
}

#[test]
fn a_side_then_the_other_takes_the_corner_between_them() {
    let mut state = CornerState { taken: Vec::new(), half: None };
    let side = resolved_side(state.half, SegmentId(0), None);
    let step = corner_click(&mut state, CornerClick::Side(SegmentId(0)), side, false, true);
    assert_eq!(step, CornerStep::OtherSide { field: Field::Open });
    assert_eq!(state.half, Some(SegmentId(0)));

    let side = resolved_side(state.half, SegmentId(1), None);
    let step = corner_click(&mut state, CornerClick::Side(SegmentId(1)), side, true, false);
    assert_eq!(step, CornerStep::Taken { count: 1, field: Field::KeepTyping });
    assert_eq!(state.taken, vec![Corner::Between(SegmentId(0), SegmentId(1))]);
    assert_eq!(state.half, None);
}

#[test]
fn a_second_click_on_the_side_waiting_finds_the_other_trait_at_the_corner() {
    let half = Some(SegmentId(0));
    assert_eq!(resolved_side(half, SegmentId(0), Some(SegmentId(1))), SegmentId(1));
    assert_eq!(resolved_side(half, SegmentId(0), None), SegmentId(0));
    assert_eq!(resolved_side(half, SegmentId(2), Some(SegmentId(1))), SegmentId(2));
}

#[test]
fn two_sides_that_do_not_meet_are_refused_and_the_first_is_kept() {
    let mut state = CornerState { taken: Vec::new(), half: Some(SegmentId(0)) };
    let step = corner_click(&mut state, CornerClick::Side(SegmentId(4)), SegmentId(4), false, true);
    assert_eq!(step, CornerStep::NeedsACorner);
    assert_eq!(state.half, Some(SegmentId(0)));
    let step = corner_click(&mut state, CornerClick::Crowded, SegmentId(4), true, true);
    assert_eq!(step, CornerStep::Crowded);
    let step = corner_click(&mut state, CornerClick::Nothing, SegmentId(4), true, true);
    assert_eq!(step, CornerStep::Nothing);
}

#[test]
fn enter_lays_every_corner_taken_or_asks_for_what_is_missing() {
    let taken = vec![Corner::At(PointId(1)), Corner::At(PointId(2))];
    assert_eq!(cut::<f64>(Vec::new(), locked(Some(3.0), None), ChamferMode::Equal, false), Cut::NothingTaken);
    assert_eq!(
        cut(taken.clone(), locked(None, None), ChamferMode::Equal, true),
        Cut::AsksFor(CornerPrompt::FilletAsksARadius)
    );
    assert_eq!(
        cut(taken.clone(), locked(Some(3.0), None), ChamferMode::Sided, true),
        Cut::Lay(Laying::Fillet { corners: taken.clone(), radius: 3.0 })
    );
    assert_eq!(
        cut(taken.clone(), locked(Some(3.0), Some(2.0)), ChamferMode::Sided, false),
        Cut::Lay(Laying::Chamfer {
            corners: taken.clone(),
            mode: Chamfer::Sided { first: 3.0, second: 2.0 }
        })
    );
    assert_eq!(
        CornerPrompt::ChamferAsksTwoDistances.key(),
        "sketch.chamfer_asks_two_distances"
    );
}

#[test]
fn the_preview_shows_the_corners_taken_and_the_one_the_cursor_would_complete() {
    let (east, north, pivot) = a_right_angle();
    let taken = CornerState { taken: vec![Corner::At(pivot)], half: Some(east) };

    assert_eq!(
        cao_app::corners::shown(&taken, Some(north)),
        Some(vec![Corner::At(pivot), Corner::Between(east, north)])
    );
    assert_eq!(cao_app::corners::shown(&taken, Some(east)), Some(vec![Corner::At(pivot)]));
    let nothing = CornerState { taken: vec![], half: Some(east) };
    assert_eq!(cao_app::corners::shown(&nothing, Some(east)), None);
    assert_eq!(cao_app::corners::shown(&nothing, None), None);
}

#[test]
fn a_preview_lays_the_corners_the_value_fits_and_passes_over_the_rest() {
    let (east, north, pivot) = a_right_angle();
    let other = Corner::Between(north, east);
    let asked = Some(Chamfer::Equal(2.0));

    assert_eq!(
        preview(&vec![(Corner::At(pivot), CornerAnswer::Laid), (other, CornerAnswer::NoSides)], asked, false),
        Some(vec![Corner::At(pivot)]),
        "a corner whose sides are not found is passed over"
    );
    assert_eq!(
        preview(&vec![(Corner::At(pivot), CornerAnswer::Laid), (other, CornerAnswer::Refused)], asked, false),
        Some(vec![Corner::At(pivot)]),
        "a corner the value does not fit is simply not shown, and the others are"
    );
    assert_eq!(
        preview(&vec![(other, CornerAnswer::Refused), (Corner::At(pivot), CornerAnswer::Laid)], asked, false),
        Some(vec![Corner::At(pivot)])
    );
    assert_eq!(preview(&vec![(Corner::At(pivot), CornerAnswer::Laid)], None::<Chamfer<f64>>, true), None, "values not typed yet");
    assert_eq!(
        preview(&vec![(Corner::At(pivot), CornerAnswer::Laid)], Some(Chamfer::Sided { first: 1.0, second: 2.0 }), true),
        None,
        "a fillet has a radius and nothing else"
    );
    assert_eq!(preview(&vec![(Corner::At(pivot), CornerAnswer::Laid)], asked, true), Some(vec![Corner::At(pivot)]));
}
