use gpui_elements::geometry::Size;
use gpui_elements::list_animation::{AnimationKind, ListAnimation, ListAnimationEvent, RemovedItem};
use gpui_elements::scroll::{
    flipped_range, measure_item_index, rows_in_drawing_order, resolve_scroll_strategy, scroll_target_index, visible_range,
    DeferredScrollToItem, ItemSize, ScrollStrategy, UniformListScrollHandle, YFlipAdjustment,
};

type Handle = UniformListScrollHandle<(), f32, u32, u64, &'static str>;

fn request(item_index: usize, strategy: ScrollStrategy, offset: usize, scroll_strict: bool) -> Option<DeferredScrollToItem> {
    Some(DeferredScrollToItem { item_index, strategy, offset, scroll_strict })
}

#[test]
fn scroll_requests_are_recorded() {
    let mut handle: Handle = UniformListScrollHandle::new(());
    assert_eq!(handle.0.deferred_scroll_to_item, None);
    handle.scroll_to_item(5, ScrollStrategy::Nearest);
    assert_eq!(handle.0.deferred_scroll_to_item, request(5, ScrollStrategy::Nearest, 0, false));
    handle.scroll_to_item_strict(6, ScrollStrategy::Top);
    assert_eq!(handle.0.deferred_scroll_to_item, request(6, ScrollStrategy::Top, 0, true));
    handle.scroll_to_item_with_offset(7, ScrollStrategy::Center, 2);
    assert_eq!(handle.0.deferred_scroll_to_item, request(7, ScrollStrategy::Center, 2, false));
    handle.scroll_to_item_strict_with_offset(8, ScrollStrategy::Bottom, 3);
    assert_eq!(handle.0.deferred_scroll_to_item, request(8, ScrollStrategy::Bottom, 3, true));
    handle.scroll_to_bottom();
    assert_eq!(handle.0.deferred_scroll_to_item, request(usize::MAX, ScrollStrategy::Bottom, 0, false));
}

#[test]
fn flipped_rows_are_drawn_in_reverse() {
    assert_eq!(rows_in_drawing_order(vec![37, 38, 39], true), vec![39, 38, 37]);
    assert_eq!(rows_in_drawing_order(vec![0, 1, 2], false), vec![0, 1, 2]);
    assert_eq!(rows_in_drawing_order(Vec::<usize>::new(), true), Vec::<usize>::new());
    // 47 items, rows 0..10 visible: the data range is 37..47, drawn 46 down to 37.
    let data: Vec<usize> = flipped_range(&(0..10), 47).collect();
    assert_eq!(rows_in_drawing_order(data, true), (37..47).rev().collect::<Vec<_>>());
}

#[test]
fn take_deferred_scroll_records_size_and_clears_request() {
    let mut handle: Handle = UniformListScrollHandle::new(());
    handle.scroll_to_item(3, ScrollStrategy::Top);
    let measured = ItemSize { item: Size { width: 100.0, height: 200.0 }, contents: Size { width: 100.0, height: 940.0 } };
    let taken = handle.take_deferred_scroll(measured);
    assert_eq!(taken, request(3, ScrollStrategy::Top, 0, false));
    assert_eq!(handle.0.deferred_scroll_to_item, None);
    assert_eq!(handle.0.last_item_size.map(|s| s.contents.height), Some(940.0));
    assert_eq!(handle.take_deferred_scroll(measured), None);
}

#[test]
fn notifications_queue_and_layout_consumes_them() {
    let mut handle: Handle = UniformListScrollHandle::new(());
    handle.notify_inserted(0..1);
    handle.notify_removed(vec![RemovedItem { index: 4, render: "ghost" }]);
    handle.notify_moved(vec![(0, 1), (1, 0)]);
    assert_eq!(handle.0.pending_animation_events.len(), 3);
    assert!(matches!(handle.0.pending_animation_events[0], ListAnimationEvent::Inserted { .. }));
    let config = ListAnimation::new().on_insert(300).on_remove(250).on_move(400);
    let running = handle.advance_animations(&config, &vec![], &vec![], 42);
    assert!(running);
    assert!(handle.0.pending_animation_events.is_empty());
    let kinds: Vec<AnimationKind> = handle.0.animation_state.active.iter().map(|a| a.kind).collect();
    assert_eq!(kinds, vec![AnimationKind::Insert, AnimationKind::Move, AnimationKind::Move]);
    assert_eq!(handle.0.animation_state.ghosts.len(), 1);
    // Next frame: everything finished, nothing new.
    let running = handle.advance_animations(&config, &vec![false, false, false], &vec![false], 43);
    assert!(!running);
}

#[test]
fn scroll_target_index_clamps_and_flips() {
    assert_eq!(scroll_target_index(5, 47, false), 5);
    assert_eq!(scroll_target_index(100, 47, false), 46);
    assert_eq!(scroll_target_index(usize::MAX, 47, false), 46);
    assert_eq!(scroll_target_index(0, 47, true), 46);
    assert_eq!(scroll_target_index(46, 47, true), 0);
    assert_eq!(scroll_target_index(usize::MAX, 47, true), 0);
    assert_eq!(scroll_target_index(3, 0, false), 0);
}

#[test]
fn resolve_scroll_strategy_cases() {
    // Non-strict and visible: nothing moves.
    for s in [ScrollStrategy::Top, ScrollStrategy::Center, ScrollStrategy::Bottom, ScrollStrategy::Nearest] {
        assert_eq!(resolve_scroll_strategy(s, false, false, false), None);
    }
    // Strict: always to the position.
    assert_eq!(resolve_scroll_strategy(ScrollStrategy::Center, true, false, false), Some(ScrollStrategy::Center));
    assert_eq!(resolve_scroll_strategy(ScrollStrategy::Nearest, true, false, false), None);
    // Nearest picks the edge the item lies beyond.
    assert_eq!(resolve_scroll_strategy(ScrollStrategy::Nearest, false, true, false), Some(ScrollStrategy::Top));
    assert_eq!(resolve_scroll_strategy(ScrollStrategy::Nearest, false, false, true), Some(ScrollStrategy::Bottom));
    assert_eq!(resolve_scroll_strategy(ScrollStrategy::Top, false, false, true), Some(ScrollStrategy::Top));
}

#[test]
fn visible_and_flipped_ranges() {
    assert_eq!(visible_range(3, 13, 47), 3..13);
    assert_eq!(visible_range(40, 50, 47), 40..47);
    assert_eq!(flipped_range(&(0..10), 47), 37..47);
    assert_eq!(flipped_range(&(40..47), 47), 0..7);
    assert_eq!(flipped_range(&(40..60), 47), 0..7);
}

#[test]
fn measure_item_index_bounds_choice() {
    assert_eq!(measure_item_index(0, 0), None);
    assert_eq!(measure_item_index(3, 10), Some(3));
    assert_eq!(measure_item_index(30, 10), Some(9));
}

#[test]
fn set_y_flipped_adjustments() {
    let mut handle: Handle = UniformListScrollHandle::new(());
    assert!(matches!(handle.set_y_flipped(false), YFlipAdjustment::Unchanged));
    assert!(!handle.y_flipped());
    assert!(matches!(handle.set_y_flipped(true), YFlipAdjustment::ToEnd));
    assert!(handle.y_flipped());
    let measured = ItemSize { item: Size { width: 1.0, height: 200.0 }, contents: Size { width: 1.0, height: 940.0 } };
    handle.take_deferred_scroll(measured);
    assert!(matches!(handle.set_y_flipped(true), YFlipAdjustment::Unchanged));
    match handle.set_y_flipped(false) {
        YFlipAdjustment::Mirror(size) => assert_eq!(size.contents.height, 940.0),
        _ => panic!("expected a mirrored offset"),
    }
    assert!(!handle.y_flipped());
}

/// The list of 47 items of 20px in a 200px viewport; selecting with
/// `Nearest` scrolls only once the selection leaves the view.
#[test]
fn test_scroll_strategy_nearest() {
    let length: usize = 47;
    let item_height: f32 = 20.0;
    let list_height: f32 = 200.0;
    let content_height = item_height * length as f32;
    let mut handle: Handle = UniformListScrollHandle::new(());
    let mut scroll_y: f32 = 0.0;
    let mut index: usize = 0;

    let mut layout = |handle: &mut Handle, scroll_y: &mut f32| -> std::ops::Range<usize> {
        let measured = ItemSize {
            item: Size { width: 100.0, height: list_height },
            contents: Size { width: 100.0, height: content_height },
        };
        if let Some(d) = handle.take_deferred_scroll(measured) {
            let ix = scroll_target_index(d.item_index, length, handle.y_flipped());
            let item_top = item_height * ix as f32;
            let item_bottom = item_top + item_height;
            let scroll_top = -*scroll_y;
            let offset_pixels = item_height * d.offset as f32;
            let (top_inset, bottom_inset) =
                if d.strategy == ScrollStrategy::Bottom { (0.0, offset_pixels) } else { (offset_pixels, 0.0) };
            let is_above = item_top < scroll_top + top_inset;
            let is_below = item_bottom > scroll_top + list_height - bottom_inset;
            let max_scroll = (content_height - list_height).max(0.0);
            match resolve_scroll_strategy(d.strategy, d.scroll_strict, is_above, is_below) {
                Some(ScrollStrategy::Top) => *scroll_y = -(item_top - offset_pixels).clamp(0.0, max_scroll),
                Some(ScrollStrategy::Bottom) => {
                    *scroll_y = -(item_bottom - (list_height - bottom_inset)).clamp(0.0, max_scroll)
                }
                Some(ScrollStrategy::Center) => {
                    let center = item_top + item_height / 2.0;
                    let viewport = list_height - offset_pixels;
                    *scroll_y = -(center - (offset_pixels + viewport / 2.0)).clamp(0.0, max_scroll);
                }
                _ => {}
            }
        }
        let first = (-*scroll_y / item_height).floor() as usize;
        let last = ((-*scroll_y + list_height) / item_height).ceil() as usize;
        visible_range(first, last, length)
    };

    for ix in 1..10 {
        index = if index + 1 == length { 0 } else { index + 1 };
        handle.scroll_to_item(index, ScrollStrategy::Nearest);
        assert_eq!(index, ix);
        assert_eq!(layout(&mut handle, &mut scroll_y), 0..10);
    }
    for ix in 10..47 {
        index = if index + 1 == length { 0 } else { index + 1 };
        handle.scroll_to_item(index, ScrollStrategy::Nearest);
        assert_eq!(index, ix);
        assert_eq!(layout(&mut handle, &mut scroll_y), ix - 9..ix + 1);
    }
    index = if index + 1 == length { 0 } else { index + 1 };
    handle.scroll_to_item(index, ScrollStrategy::Nearest);
    assert_eq!(index, 0);
    assert_eq!(layout(&mut handle, &mut scroll_y), 0..10);

    index = if index == 0 { length - 1 } else { index - 1 };
    handle.scroll_to_item(index, ScrollStrategy::Nearest);
    assert_eq!(index, 46);
    assert_eq!(layout(&mut handle, &mut scroll_y), 37..47);

    for ix in (37..46).rev() {
        index = if index == 0 { length - 1 } else { index - 1 };
        handle.scroll_to_item(index, ScrollStrategy::Nearest);
        assert_eq!(index, ix);
        assert_eq!(layout(&mut handle, &mut scroll_y), 37..47);
    }
    for ix in (0..37).rev() {
        index = if index == 0 { length - 1 } else { index - 1 };
        handle.scroll_to_item(index, ScrollStrategy::Nearest);
        assert_eq!(index, ix);
        assert_eq!(layout(&mut handle, &mut scroll_y), ix..ix + 10);
    }
}

#[test]
fn unflipping_before_first_layout_clears_the_flag() {
    let mut handle: Handle = UniformListScrollHandle::new(());
    assert!(matches!(handle.set_y_flipped(true), YFlipAdjustment::ToEnd));
    assert!(handle.y_flipped());
    assert!(matches!(handle.set_y_flipped(false), YFlipAdjustment::Unchanged));
    assert!(!handle.y_flipped());
}

#[test]
fn unmeasured_flipped_list_moves_to_end_each_time() {
    let mut handle: Handle = UniformListScrollHandle::new(());
    assert!(matches!(handle.set_y_flipped(true), YFlipAdjustment::ToEnd));
    assert!(matches!(handle.set_y_flipped(true), YFlipAdjustment::ToEnd));
    assert!(handle.y_flipped());
}
