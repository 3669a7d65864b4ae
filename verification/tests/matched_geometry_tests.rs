use gpui_elements::element_id::{make_element_id, ElementId};
use gpui_elements::matched_geometry::{
    advance_matched_geometry, natural_target, previous_frame_wrapper_size, MatchedGeometryAnimState,
    MatchedGeometryElement, MatchedGeometryEntry, MatchedGeometryExt, MatchedGeometryId, MatchedGeometryStep,
};

fn name(s: &str) -> ElementId {
    ElementId::Name(s.to_string())
}

#[test]
fn element_id_is_named_and_stable() {
    let a = make_element_id(&name("cards"), &ElementId::Integer(3));
    let b = make_element_id(&name("cards"), &ElementId::Integer(3));
    assert_eq!(a, b);
    match &a {
        ElementId::NamedInteger(label, _) => assert_eq!(label, "matched-geo"),
        _ => panic!("expected a named integer"),
    }
    let c = make_element_id(&name("cards"), &ElementId::Integer(4));
    assert_ne!(a, c);
    let swapped = make_element_id(&ElementId::Integer(3), &name("cards"));
    assert_ne!(a, swapped);
    let other_name = make_element_id(&name("tiles"), &ElementId::Integer(3));
    assert_ne!(a, other_name);
    // Where one name ends does not depend on what follows it.
    let split_one_way = make_element_id(&name("a"), &name("b"));
    let split_other_way = make_element_id(&name("a\u{6200}"), &name(""));
    assert_ne!(split_one_way, split_other_way);
    let named = make_element_id(&ElementId::NamedInteger("cards".to_string(), 3), &name("x"));
    let unnamed = make_element_id(&ElementId::Integer(3), &name("x"));
    assert_ne!(named, unnamed);
}

#[test]
fn matched_geometry_wraps_element() {
    let element: MatchedGeometryElement<&str, u32, f32> =
        "card".matched_geometry(name("cards"), ElementId::Integer(1), 300u32);
    assert_eq!(element.element, Some("card"));
    assert_eq!(element.animation, 300);
    assert_eq!(element.matched_id, MatchedGeometryId { namespace: name("cards"), id: ElementId::Integer(1) });
    assert_eq!(element.element_id, make_element_id(&name("cards"), &ElementId::Integer(1)));
    assert_eq!(element.corner_radii.top_left, 0.0);
    let rounded = element.with_corner_radii(8.0);
    let c = rounded.corner_radii;
    assert_eq!((c.top_left, c.top_right, c.bottom_right, c.bottom_left), (8.0, 8.0, 8.0, 8.0));
    assert_eq!(rounded.element, Some("card"));
    let mut rounded = rounded;
    assert_eq!(rounded.take_element(), "card");
    assert_eq!(rounded.element, None);
}

type Rect = (i32, i32, i32, i32);

#[test]
fn moved_element_starts_animation() {
    let step = advance_matched_geometry::<Rect, u64>(None, Some((0, 0, 10, 10)), (50, 0, 10, 10), false, true, 7);
    match step {
        MatchedGeometryStep::Start(s) => {
            assert_eq!(s.from_bounds, (0, 0, 10, 10));
            assert_eq!(s.to_bounds, (50, 0, 10, 10));
            assert_eq!(s.start, 7);
        }
        _ => panic!("expected a start"),
    }
    assert_eq!(step.next_state().map(|s| s.start), Some(7));
}

#[test]
fn unchanged_or_new_element_settles() {
    let step = advance_matched_geometry::<Rect, u64>(None, Some((0, 0, 10, 10)), (1, 0, 10, 10), false, false, 7);
    assert!(matches!(step, MatchedGeometryStep::Settled));
    let step = advance_matched_geometry::<Rect, u64>(None, None, (1, 0, 10, 10), false, true, 7);
    assert!(matches!(step, MatchedGeometryStep::Settled));
    assert!(step.next_state().is_none());
}

#[test]
fn running_animation_continues_then_restarts_or_settles() {
    let anim = MatchedGeometryAnimState { start: 1u64, from_bounds: (0, 0, 10, 10), to_bounds: (50, 0, 10, 10) };
    let step = advance_matched_geometry::<Rect, u64>(Some(anim), Some((20, 0, 10, 10)), (50, 0, 10, 10), false, true, 9);
    match step {
        MatchedGeometryStep::Continue(s) => assert_eq!(s.start, 1),
        _ => panic!("expected to continue"),
    }
    // Finished while the target moved back: a new animation from where it is.
    let step = advance_matched_geometry::<Rect, u64>(Some(anim), Some((50, 0, 10, 10)), (0, 0, 10, 10), true, true, 9);
    match step {
        MatchedGeometryStep::Start(s) => {
            assert_eq!(s.from_bounds, (50, 0, 10, 10));
            assert_eq!(s.to_bounds, (0, 0, 10, 10));
            assert_eq!(s.start, 9);
        }
        _ => panic!("expected a restart"),
    }
    let step = advance_matched_geometry::<Rect, u64>(Some(anim), Some((50, 0, 10, 10)), (50, 0, 10, 10), true, false, 9);
    assert!(matches!(step, MatchedGeometryStep::Settled));
}

#[test]
fn registration_round_trip() {
    let animating = MatchedGeometryEntry::animating((10, 0, 40, 40), (0, 0, 20, 20));
    assert_eq!(previous_frame_wrapper_size(Some(&animating)), Some((10, 0, 40, 40)));
    assert_eq!(natural_target(Some(&animating), (5, 5, 5, 5)), (0, 0, 20, 20));
    let settled = MatchedGeometryEntry::settled((1, 1, 1, 1));
    assert_eq!(previous_frame_wrapper_size(Some(&settled)), None);
    assert_eq!(natural_target(Some(&settled), (5, 5, 5, 5)), (5, 5, 5, 5));
    assert_eq!(previous_frame_wrapper_size::<Rect>(None), None);
    assert_eq!(natural_target::<Rect>(None, (5, 5, 5, 5)), (5, 5, 5, 5));
}
