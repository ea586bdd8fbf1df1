use cao_app::model::{DimensionTarget, SegmentId};
use cao_app::variables::{
    Add, Broken, Commit, Named, Problem, Refused, Typed, Use, VariableId, VariablesPanel,
};

/// Why a formula does not read, as the part says it.
#[derive(Clone, Debug, PartialEq)]
enum Unreadable {
    MissingValue(Option<usize>),
}

/// Why the part refuses a name.
#[derive(Clone, Debug, PartialEq)]
enum NameProblem {
    OpensOnADigit,
}

type Panel = VariablesPanel<Unreadable, NameProblem>;

const HEIGHT: DimensionTarget = DimensionTarget::Length(SegmentId(1));
const THE_HEIGHT: VariableId = VariableId(0);

fn asked_to_add(panel: &mut Panel, name: &str, formula: &str, read: Result<f64, Unreadable>) -> Add<f64> {
    panel.typed_into_foot(name.to_string(), formula.to_string());
    panel.add(read)
}

#[test]
fn every_variable_is_a_row_with_its_formula_and_what_it_comes_to() {
    let mut panel = Panel::new();

    let asked = asked_to_add(&mut panel, " width ", "120", Ok(120.0));
    assert_eq!(asked, Add::Ask { name: "width".to_string(), formula: 120.0 });
    assert!(panel.added(Ok(())));

    assert!(panel.adding().name.is_empty() && panel.adding().formula.is_empty());
    assert!(panel.problem().is_none());

    // A row shows what the table holds while nobody types into it.
    let shown = panel.texts(VariableId(1), &"middle".to_string(), &"width / 2 + 5".to_string());
    assert_eq!(shown, Typed { name: "middle".to_string(), formula: "width / 2 + 5".to_string() });
}

#[test]
fn a_formula_that_does_not_read_adds_nothing_and_says_what_is_wrong() {
    let mut panel = Panel::new();

    let asked = asked_to_add(&mut panel, "width", "12 +", Err(Unreadable::MissingValue(None)));

    assert_eq!(asked, Add::Refused);
    assert_eq!(panel.problem(), Some(&Problem::Formula(Unreadable::MissingValue(None))));
    assert_eq!(panel.adding().formula, "12 +", "what was typed stays to be fixed");
}

#[test]
fn a_name_that_does_not_do_is_refused_by_the_part() {
    let mut panel = Panel::new();

    let asked = asked_to_add(&mut panel, "2nd", "1", Ok(1.0));
    assert_eq!(asked, Add::Ask { name: "2nd".to_string(), formula: 1.0 });
    assert!(!panel.added(Err(Refused::Other(NameProblem::OpensOnADigit))));

    assert_eq!(panel.problem(), Some(&Problem::Refused(Refused::Other(NameProblem::OpensOnADigit))));
    assert_eq!(panel.adding().name, "2nd", "what was typed stays to be fixed");
}

fn typed(name: &str, formula: &str) -> Typed {
    Typed { name: name.to_string(), formula: formula.to_string() }
}

#[test]
fn a_row_edited_and_committed_changes_the_variable_and_what_follows_it() {
    let mut panel = Panel::new();
    let height = "height".to_string();

    panel.typed_into(THE_HEIGHT, "height".to_string(), "60".to_string());
    let asked = panel.commit(Ok(60.0), Some((&height, false)));
    assert_eq!(
        asked,
        Commit::Ask { variable: THE_HEIGHT, name: "height".to_string(), formula: 60.0, typed: typed("height", "60") }
    );
    assert!(panel.committed(Ok(()), THE_HEIGHT, typed("height", "60")));

    assert!(!panel.is_editing(THE_HEIGHT));
    assert!(panel.problem().is_none());
}

#[test]
fn a_row_committed_as_it_was_records_nothing() {
    let mut panel = Panel::new();
    let height = "height".to_string();

    panel.typed_into(THE_HEIGHT, "height ".to_string(), "40".to_string());

    assert_eq!(panel.commit(Ok(40.0), Some((&height, true))), Commit::Unchanged);
    assert!(!panel.is_editing(THE_HEIGHT));
}

#[test]
fn a_row_renamed_is_asked_of_the_part_though_its_formula_stands() {
    let mut panel = Panel::new();
    let height = "height".to_string();
    panel.typed_into(THE_HEIGHT, "tall".to_string(), "40".to_string());
    assert!(matches!(panel.commit(Ok(40.0), Some((&height, true))), Commit::Ask { .. }));
}

#[test]
fn a_variable_in_use_is_kept_and_the_panel_says_what_uses_it() {
    let mut panel = Panel::new();

    let uses = vec![Use::Dimension { sketch: 0, target: HEIGHT }];
    assert!(!panel.erased(Err(Refused::InUse(uses.clone()))));

    assert_eq!(panel.problem(), Some(&Problem::Refused(Refused::InUse(uses))));
    assert_eq!(
        panel.named(),
        Named { values: vec![(0, HEIGHT)], variables: vec![], steps: vec![] }
    );
}

#[test]
fn a_change_that_would_break_a_dimension_names_it_for_the_drawing_to_show() {
    let mut panel = Panel::new();
    let height = "height".to_string();

    panel.typed_into(THE_HEIGHT, "height".to_string(), "-5".to_string());
    let asked = panel.commit(Ok(-5.0), Some((&height, false)));
    let Commit::Ask { variable, typed, .. } = asked else {
        panic!("a change is asked of the part, got {asked:?}");
    };
    let refused = Refused::Breaks(vec![Broken::Dimension { sketch: 0, target: HEIGHT }]);

    assert!(!panel.committed(Err(refused), variable, typed));
    assert_eq!(panel.named().values, vec![(0, HEIGHT)]);
    assert!(panel.is_editing(THE_HEIGHT), "what was typed stays in the row to be fixed");
    assert_eq!(panel.editing().map(|(_, t)| t.formula.clone()), Some("-5".to_string()));
}

#[test]
fn a_formula_that_does_not_read_on_commit_keeps_the_row_to_be_fixed() {
    let mut panel = Panel::new();
    panel.typed_into(THE_HEIGHT, "height".to_string(), "12 +".to_string());

    assert_eq!(panel.commit::<f64>(Err(Unreadable::MissingValue(Some(4))), None), Commit::Refused);
    assert!(panel.is_editing(THE_HEIGHT));
    assert_eq!(panel.problem(), Some(&Problem::Formula(Unreadable::MissingValue(Some(4)))));
}

#[test]
fn a_commit_with_no_row_being_edited_asks_nothing() {
    let mut panel = Panel::new();
    assert_eq!(panel.commit(Ok(1.0), None), Commit::NotEditing);
}

#[test]
fn a_renumbered_step_names_itself_and_the_one_after_it_and_what_is_adrift_names_nothing() {
    let mut panel = Panel::new();
    let refused = Refused::Breaks(vec![
        Broken::Renumbered { changed: 3, followed_by: 4 },
        Broken::Adrift,
        Broken::Variable(VariableId(2)),
        Broken::Operation(9),
    ]);
    panel.erased(Err(refused));
    let named = panel.named();
    assert_eq!(named.steps, vec![3, 4, 9]);
    assert_eq!(named.variables, vec![VariableId(2)]);
    assert!(named.values.is_empty());
    assert!(!named.is_empty());
}

#[test]
fn typing_into_another_row_drops_the_first_and_cancel_drops_both() {
    let mut panel = Panel::new();
    panel.typed_into(VariableId(0), "a".to_string(), "1".to_string());
    panel.typed_into(VariableId(1), "b".to_string(), "2".to_string());
    assert!(!panel.is_editing(VariableId(0)));
    assert!(panel.is_editing(VariableId(1)));
    assert_eq!(panel.texts(VariableId(1), &"x".to_string(), &"y".to_string()), typed("b", "2"));
    panel.cancel();
    assert!(panel.editing().is_none());
    assert!(Panel::new().named().is_empty());
}

#[test]
fn a_commit_once_trimmed_asks_only_for_a_change() {
    let mut panel = Panel::new();
    let height = "height".to_string();
    assert_eq!(
        panel.commit_as(THE_HEIGHT, typed("height", "40"), 40.0, "height".to_string(), Some((&height, true))),
        Commit::Unchanged
    );
    assert_eq!(
        panel.commit_as(THE_HEIGHT, typed("height", "41"), 41.0, "height".to_string(), Some((&height, false))),
        Commit::Ask { variable: THE_HEIGHT, name: "height".to_string(), formula: 41.0, typed: typed("height", "41") }
    );
    assert!(matches!(
        panel.commit_as(THE_HEIGHT, typed("h", "40"), 40.0, "h".to_string(), None),
        Commit::Ask { .. }
    ));
}

#[test]
fn a_row_typed_exactly_as_it_was_records_nothing() {
    let mut panel = Panel::new();
    let height = "height".to_string();
    panel.typed_into(THE_HEIGHT, "height".to_string(), "40".to_string());
    assert_eq!(panel.commit(Ok(40.0), Some((&height, true))), Commit::Unchanged);
    panel.typed_into(THE_HEIGHT, "\u{3000}height\t\n".to_string(), "40".to_string());
    assert_eq!(panel.commit(Ok(40.0), Some((&height, true))), Commit::Unchanged, "every kind of white space goes");
}
