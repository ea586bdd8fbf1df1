use cao_app::model::PointId;
use cao_app::shading::{look, settled_at, trait_look, Look, Tint};

#[test]
fn a_thing_is_coloured_by_how_much_freedom_it_has_left() {
    assert_eq!(look(false, true, false, false), Look { tint: Tint::Free, thin: false, widened: false });
    assert_eq!(look(false, true, true, false), Look { tint: Tint::Settled, thin: false, widened: false });
    assert_eq!(look(true, true, false, false), Look { tint: Tint::Fixed, thin: false, widened: false });
    assert_eq!(look(false, false, true, false), Look { tint: Tint::Inactive, thin: true, widened: false });
    assert_eq!(look(true, false, false, false), Look { tint: Tint::Fixed, thin: false, widened: false }, "a fixed thing keeps its width");
    assert_eq!(look(false, false, false, true), Look { tint: Tint::Highlight, thin: true, widened: true });
}

#[test]
fn a_trait_is_settled_only_when_both_its_ends_are() {
    let settled = vec![true, false, true];
    assert!(settled_at(&settled, PointId(0)));
    assert!(!settled_at(&settled, PointId(1)));
    assert!(!settled_at(&settled, PointId(7)), "a point the drawing says nothing of is not settled");
    assert_eq!(trait_look(&settled, (PointId(0), PointId(2)), false, true, false).tint, Tint::Settled);
    assert_eq!(trait_look(&settled, (PointId(0), PointId(1)), false, true, false).tint, Tint::Free);
}
