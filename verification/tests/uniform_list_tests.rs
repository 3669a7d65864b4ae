use gpui_elements::element_id::ElementId;
use gpui_elements::list_animation::ListAnimation;
use gpui_elements::uniform_list::{
    uniform_list, ListHorizontalSizingBehavior, ListSizingBehavior, Overflow, UniformList,
};

type List = UniformList<&'static str, u8, u32, u32>;

#[test]
fn uniform_list_defaults() {
    let list: List = uniform_list(ElementId::Name("entries".to_string()), 47, "render");
    assert_eq!(list.id, ElementId::Name("entries".to_string()));
    assert_eq!(list.item_count, 47);
    assert_eq!(list.item_to_measure_index, 0);
    assert_eq!(list.render_items, "render");
    assert!(list.decorations.is_empty());
    assert_eq!(list.scroll_handle, None);
    assert_eq!(list.sizing_behavior, ListSizingBehavior::Auto);
    assert_eq!(list.horizontal_sizing_behavior, ListHorizontalSizingBehavior::FitList);
    assert!(list.animation.is_none());
    assert_eq!(list.overflow_x, None);
    assert_eq!(list.overflow_y, Some(Overflow::Scroll));
    assert_eq!(list.item_to_measure(), Some(0));
}

#[test]
fn uniform_list_builders() {
    let list: List = uniform_list(ElementId::Integer(1), 10, "render");
    let list = list
        .with_width_from_item(Some(30))
        .with_sizing_behavior(ListSizingBehavior::Infer)
        .with_horizontal_sizing_behavior(ListHorizontalSizingBehavior::Unconstrained)
        .with_decoration(1)
        .with_decoration(2)
        .animate(ListAnimation::new().on_insert(300))
        .track_scroll(&9);
    assert_eq!(list.item_to_measure_index, 30);
    assert_eq!(list.item_to_measure(), Some(9));
    assert_eq!(list.sizing_behavior, ListSizingBehavior::Infer);
    assert_eq!(list.horizontal_sizing_behavior, ListHorizontalSizingBehavior::Unconstrained);
    assert_eq!(list.overflow_x, Some(Overflow::Scroll));
    assert_eq!(list.decorations, vec![1, 2]);
    assert_eq!(list.animation.as_ref().and_then(|a| a.on_insert), Some(300));
    assert_eq!(list.scroll_handle, Some(9));
    let list = list
        .with_horizontal_sizing_behavior(ListHorizontalSizingBehavior::FitList)
        .with_width_from_item(None);
    assert_eq!(list.overflow_x, None);
    assert_eq!(list.item_to_measure_index, 0);
}

#[test]
fn empty_list_measures_nothing() {
    let list: List = uniform_list(ElementId::Integer(1), 0, "render");
    assert_eq!(list.item_to_measure(), None);
}
