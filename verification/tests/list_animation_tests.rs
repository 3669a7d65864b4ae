use gpui_elements::list_animation::{
    retain_flagged, AnimationKind, ListAnimation, ListAnimationEvent, RemovedItem, UniformListAnimationState,
};

#[test]
fn list_animation_builders_set_each_kind() {
    let config: ListAnimation<u32> = ListAnimation::new();
    assert!(config.on_insert.is_none() && config.on_remove.is_none() && config.on_move.is_none());
    let config = config.on_insert(300).on_remove(250).on_move(400);
    assert_eq!(config.on_insert, Some(300));
    assert_eq!(config.on_remove, Some(250));
    assert_eq!(config.on_move, Some(400));
    let only_move = ListAnimation::new().on_move(7u32);
    assert_eq!(only_move.on_insert, None);
    assert_eq!(only_move.on_remove, None);
    assert_eq!(only_move.on_move, Some(7));
}

fn events() -> Vec<ListAnimationEvent<&'static str>> {
    vec![
        ListAnimationEvent::Inserted { range: 2..4 },
        ListAnimationEvent::Removed { removals: vec![RemovedItem { index: 0, render: "ghost-0" }] },
        ListAnimationEvent::Moved { moves: vec![(0, 1), (1, 0)] },
    ]
}

#[test]
fn apply_events_starts_configured_animations_in_order() {
    let mut state: UniformListAnimationState<u32, u64, &'static str> = UniformListAnimationState::new();
    let config = ListAnimation::new().on_insert(300).on_remove(250).on_move(400);
    state.apply_events(events(), &config, 1000);
    let keys: Vec<(AnimationKind, usize, usize, u32, u64)> =
        state.active.iter().map(|a| (a.kind, a.from_index, a.to_index, a.animation, a.start)).collect();
    assert_eq!(
        keys,
        vec![
            (AnimationKind::Insert, 2, 2, 300, 1000),
            (AnimationKind::Insert, 3, 3, 300, 1000),
            (AnimationKind::Move, 0, 1, 400, 1000),
            (AnimationKind::Move, 1, 0, 400, 1000),
        ]
    );
    assert_eq!(state.ghosts.len(), 1);
    assert_eq!(state.ghosts[0].original_index, 0);
    assert_eq!(state.ghosts[0].render, "ghost-0");
    assert_eq!(state.ghosts[0].animation, 250);
    assert!(state.has_active_animations());
}

#[test]
fn apply_events_drops_unconfigured_kinds() {
    let mut state: UniformListAnimationState<u32, u64, &'static str> = UniformListAnimationState::new();
    let config = ListAnimation::new().on_move(400);
    state.apply_events(events(), &config, 5);
    assert_eq!(state.active.len(), 2);
    assert!(state.active.iter().all(|a| a.kind == AnimationKind::Move));
    assert!(state.ghosts.is_empty());
    let mut idle: UniformListAnimationState<u32, u64, &'static str> = UniformListAnimationState::new();
    idle.apply_events(events(), &ListAnimation::new(), 5);
    assert!(!idle.has_active_animations());
}

#[test]
fn empty_inserted_range_starts_nothing() {
    let mut state: UniformListAnimationState<u32, u64, ()> = UniformListAnimationState::new();
    let config = ListAnimation::new().on_insert(1);
    state.apply_events(vec![ListAnimationEvent::Inserted { range: 5..5 }], &config, 0);
    assert!(state.active.is_empty());
}

#[test]
fn retain_flagged_keeps_flagged_items_in_order() {
    let mut items = vec![10, 20, 30, 40, 50];
    retain_flagged(&mut items, &vec![true, false, true, false, true]);
    assert_eq!(items, vec![10, 30, 50]);
    let mut none = vec![1, 2];
    retain_flagged(&mut none, &vec![false, false]);
    assert!(none.is_empty());
}

#[test]
fn retain_running_drops_finished_records() {
    let mut state: UniformListAnimationState<u32, u64, &'static str> = UniformListAnimationState::new();
    let config = ListAnimation::new().on_insert(300).on_remove(250).on_move(400);
    state.apply_events(events(), &config, 0);
    state.retain_running(&vec![false, true, false, true], &vec![false]);
    let kept: Vec<(usize, usize)> = state.active.iter().map(|a| (a.from_index, a.to_index)).collect();
    assert_eq!(kept, vec![(3, 3), (1, 0)]);
    assert!(state.ghosts.is_empty());
}

#[test]
fn animations_for_item_selects_insertions_and_move_targets() {
    let mut state: UniformListAnimationState<u32, u64, &'static str> = UniformListAnimationState::new();
    let config = ListAnimation::new().on_insert(300).on_remove(250).on_move(400);
    state.apply_events(events(), &config, 0);
    // active: Insert 2, Insert 3, Move 0->1, Move 1->0
    assert_eq!(state.animations_for_item(2), vec![0]);
    assert_eq!(state.animations_for_item(1), vec![2]);
    assert_eq!(state.animations_for_item(0), vec![3]);
    assert_eq!(state.animations_for_item(9), Vec::<usize>::new());
}
