//! Scroll state of a uniform list and the decisions of its layout pass:
//! which item a deferred scroll request targets, whether and how the list
//! scrolls to it, which index range is visible, and how a vertically flipped
//! list maps indices.
//!
//! Pixel arithmetic (item tops, offsets, clamping of the scroll offset) is done
//! by the caller in floating point; the functions here take the results of
//! those comparisons as booleans.
use crate::geometry::Size;
use crate::list_animation::{
    active_keys, events_active_keys, events_ghost_entries, flagged, ghost_entries, started_active, started_ghost,
    ListAnimation, ListAnimationEvent, RemovedItem, UniformListAnimationState,
};
use std::ops::Range;
use vstd::prelude::*;

verus! {

/// Where to place the element scrolled to.
#[derive(Clone, Copy, Debug, PartialEq, Eq, Structural)]
pub enum ScrollStrategy {
    /// Place the element at the top of the list's viewport.
    Top,
    /// Attempt to place the element in the middle of the list's viewport.
    Center,
    /// Attempt to place the element at the bottom of the list's viewport.
    Bottom,
    /// If the element is not visible, place it at the top when it lies above
    /// the visible items and at the bottom when it lies below them.
    Nearest,
}

/// A scroll request, applied during the next layout pass.
#[derive(Clone, Copy, Debug, PartialEq, Eq, Structural)]
pub struct DeferredScrollToItem {
    /// The item index to scroll to.
    pub item_index: usize,
    /// The scroll strategy to use.
    pub strategy: ScrollStrategy,
    /// The offset in number of items.
    pub offset: usize,
    /// Whether to scroll even when the item is already visible.
    pub scroll_strict: bool,
}

/// The size of the item and its contents.
#[derive(Clone, Copy, Debug, Default)]
pub struct ItemSize<P> {
    /// The size of the item.
    pub item: Size<P>,
    /// The size of the item's contents, which may be larger than the item itself.
    pub contents: Size<P>,
}

/// Scroll and animation state of a uniform list, persisted across frames.
///
/// `H` is the underlying scroll handle that holds the pixel scroll offset,
/// `P` the pixel unit, and `A`, `I`, `R` the animation description, the
/// instant type and the ghost renderer of `list_animation`.
pub struct UniformListScrollState<H, P, A, I, R> {
    pub base_handle: H,
    pub deferred_scroll_to_item: Option<DeferredScrollToItem>,
    /// Size of the item, captured during last layout.
    pub last_item_size: Option<ItemSize<P>>,
    /// Whether the list was vertically flipped during last layout.
    pub y_flipped: bool,
    /// Animation events queued by the `notify_*` calls, consumed during layout.
    pub pending_animation_events: Vec<ListAnimationEvent<R>>,
    /// Active animation state, managed during layout.
    pub animation_state: UniformListAnimationState<A, I, R>,
}

/// A handle for controlling the scroll position of a uniform list.
///
/// The list and the view that owns the list share one handle; this type holds
/// the state itself, and the sharing is left to the caller.
pub struct UniformListScrollHandle<H, P, A, I, R>(pub UniformListScrollState<H, P, A, I, R>);

/// What a change of the vertical flip asks of the pixel scroll offset.
#[derive(Clone, Copy, Debug)]
pub enum YFlipAdjustment<P> {
    /// The offset stays.
    Unchanged,
    /// Mirror the vertical offset within the content measured in the last
    /// layout: the new offset is `-(offset + contents.height - item.height)`.
    Mirror(ItemSize<P>),
    /// The list has not been laid out yet and starts flipped: move the offset
    /// to the far end.
    ToEnd,
}

/// Two states that agree on everything but the deferred scroll request.
pub open spec fn same_but_deferred<H, P, A, I, R>(
    a: UniformListScrollState<H, P, A, I, R>,
    b: UniformListScrollState<H, P, A, I, R>,
) -> bool {
    &&& a.base_handle == b.base_handle
    &&& a.last_item_size == b.last_item_size
    &&& a.y_flipped == b.y_flipped
    &&& a.pending_animation_events == b.pending_animation_events
    &&& a.animation_state == b.animation_state
}

/// Two states that agree on everything but the queue of pending events.
pub open spec fn same_but_pending<H, P, A, I, R>(
    a: UniformListScrollState<H, P, A, I, R>,
    b: UniformListScrollState<H, P, A, I, R>,
) -> bool {
    &&& a.base_handle == b.base_handle
    &&& a.deferred_scroll_to_item == b.deferred_scroll_to_item
    &&& a.last_item_size == b.last_item_size
    &&& a.y_flipped == b.y_flipped
    &&& a.animation_state == b.animation_state
}

/// The request that `scroll_to_item` and its variants record.
pub open spec fn request(item_index: usize, strategy: ScrollStrategy, offset: usize, scroll_strict: bool) -> DeferredScrollToItem {
    DeferredScrollToItem { item_index, strategy, offset, scroll_strict }
}

impl<H, P, A, I, R> UniformListScrollHandle<H, P, A, I, R> {
    /// Create a new scroll handle around the given base scroll handle.
    pub fn new(base_handle: H) -> (r: Self)
        ensures
            r.0.base_handle == base_handle,
            r.0.deferred_scroll_to_item is None,
            r.0.last_item_size is None,
            !r.0.y_flipped,
            r.0.pending_animation_events@.len() == 0,
            r.0.animation_state.active@.len() == 0,
            r.0.animation_state.ghosts@.len() == 0,
    {
        UniformListScrollHandle(
            UniformListScrollState {
                base_handle,
                deferred_scroll_to_item: None,
                last_item_size: None,
                y_flipped: false,
                pending_animation_events: Vec::new(),
                animation_state: UniformListAnimationState::new(),
            },
        )
    }

    /// Scroll the list so that the given item index is visible; if the item
    /// is already fully visible, no scrolling occurs.
    pub fn scroll_to_item(&mut self, ix: usize, strategy: ScrollStrategy)
        ensures
            final(self).0.deferred_scroll_to_item == Some(request(ix, strategy, 0, false)),
            same_but_deferred(old(self).0, final(self).0),
    {
        self.0.deferred_scroll_to_item = Some(DeferredScrollToItem { item_index: ix, strategy, offset: 0, scroll_strict: false });
    }

    /// Scroll the list so that the given item index is at the strategy's
    /// position, even if it is already visible.
    pub fn scroll_to_item_strict(&mut self, ix: usize, strategy: ScrollStrategy)
        ensures
            final(self).0.deferred_scroll_to_item == Some(request(ix, strategy, 0, true)),
            same_but_deferred(old(self).0, final(self).0),
    {
        self.0.deferred_scroll_to_item = Some(DeferredScrollToItem { item_index: ix, strategy, offset: 0, scroll_strict: true });
    }

    /// Scroll to the given item index, with the viewport shrunk by `offset`
    /// items; no scrolling occurs if the item is visible within that region.
    pub fn scroll_to_item_with_offset(&mut self, ix: usize, strategy: ScrollStrategy, offset: usize)
        ensures
            final(self).0.deferred_scroll_to_item == Some(request(ix, strategy, offset, false)),
            same_but_deferred(old(self).0, final(self).0),
    {
        self.0.deferred_scroll_to_item = Some(DeferredScrollToItem { item_index: ix, strategy, offset, scroll_strict: false });
    }

    /// Scroll to the given item index at the strategy's position within the
    /// viewport shrunk by `offset` items, even if it is already visible.
    pub fn scroll_to_item_strict_with_offset(&mut self, ix: usize, strategy: ScrollStrategy, offset: usize)
        ensures
            final(self).0.deferred_scroll_to_item == Some(request(ix, strategy, offset, true)),
            same_but_deferred(old(self).0, final(self).0),
    {
        self.0.deferred_scroll_to_item = Some(DeferredScrollToItem { item_index: ix, strategy, offset, scroll_strict: true });
    }

    /// Check if the list is flipped vertically.
    pub fn y_flipped(&self) -> (r: bool)
        ensures
            r == self.0.y_flipped,
    {
        self.0.y_flipped
    }

    /// Scroll to the bottom of the list.
    pub fn scroll_to_bottom(&mut self)
        ensures
            final(self).0.deferred_scroll_to_item == Some(request(usize::MAX, ScrollStrategy::Bottom, 0, false)),
            same_but_deferred(old(self).0, final(self).0),
    {
        self.scroll_to_item(usize::MAX, ScrollStrategy::Bottom);
    }

    /// Notify the list that items were inserted at the given range.
    pub fn notify_inserted(&mut self, range: Range<usize>)
        ensures
            final(self).0.pending_animation_events@ == old(self).0.pending_animation_events@.push(
                (ListAnimationEvent::Inserted { range }),
            ),
            same_but_pending(old(self).0, final(self).0),
    {
        self.0.pending_animation_events.push(ListAnimationEvent::Inserted { range });
    }

    /// Notify the list that items will be removed.
    pub fn notify_removed(&mut self, removals: Vec<RemovedItem<R>>)
        ensures
            final(self).0.pending_animation_events@ == old(self).0.pending_animation_events@.push(
                (ListAnimationEvent::Removed { removals }),
            ),
            same_but_pending(old(self).0, final(self).0),
    {
        self.0.pending_animation_events.push(ListAnimationEvent::Removed { removals });
    }

    /// Notify the list that items were moved; each pair is `(from, to)`.
    pub fn notify_moved(&mut self, moves: Vec<(usize, usize)>)
        ensures
            final(self).0.pending_animation_events@ == old(self).0.pending_animation_events@.push(
                (ListAnimationEvent::Moved { moves }),
            ),
            same_but_pending(old(self).0, final(self).0),
    {
        self.0.pending_animation_events.push(ListAnimationEvent::Moved { moves });
    }

    /// At layout: record the measured size of the list and its contents, and
    /// take the pending scroll request, if any.
    pub fn take_deferred_scroll(&mut self, measured: ItemSize<P>) -> (r: Option<DeferredScrollToItem>)
        ensures
            r == old(self).0.deferred_scroll_to_item,
            final(self).0.deferred_scroll_to_item is None,
            final(self).0.last_item_size == Some(measured),
            final(self).0.base_handle == old(self).0.base_handle,
            final(self).0.y_flipped == old(self).0.y_flipped,
            final(self).0.pending_animation_events == old(self).0.pending_animation_events,
            final(self).0.animation_state == old(self).0.animation_state,
    {
        self.0.last_item_size = Some(measured);
        let r = self.0.deferred_scroll_to_item;
        self.0.deferred_scroll_to_item = None;
        r
    }
}

impl<H, P: Copy, A, I, R> UniformListScrollHandle<H, P, A, I, R> {
    /// Sets whether the list is flipped vertically, such that item 0 appears
    /// at the bottom, and says how the pixel scroll offset must follow: a
    /// measured list that changes its flip mirrors its offset, a list not yet
    /// measured that is flipped moves to the far end, and otherwise the offset
    /// stays.
    pub fn set_y_flipped(&mut self, y_flipped: bool) -> (r: YFlipAdjustment<P>)
        ensures
            final(self).0.base_handle == old(self).0.base_handle,
            final(self).0.deferred_scroll_to_item == old(self).0.deferred_scroll_to_item,
            final(self).0.last_item_size == old(self).0.last_item_size,
            final(self).0.pending_animation_events == old(self).0.pending_animation_events,
            final(self).0.animation_state == old(self).0.animation_state,
            (final(self).0.y_flipped, r) == y_flip_outcome(old(self).0.y_flipped, old(self).0.last_item_size, y_flipped),
    {
        match self.0.last_item_size {
            Some(last_size) => {
                if self.0.y_flipped != y_flipped {
                    self.0.y_flipped = y_flipped;
                    YFlipAdjustment::Mirror(last_size)
                } else {
                    YFlipAdjustment::Unchanged
                }
            },
            None => {
                self.0.y_flipped = y_flipped;
                if y_flipped {
                    YFlipAdjustment::ToEnd
                } else {
                    YFlipAdjustment::Unchanged
                }
            },
        }
    }
}

impl<H, P, A: Clone, I: Copy, R> UniformListScrollHandle<H, P, A, I, R> {
    /// At layout: consume all pending animation events, drop the finished
    /// animations (a flag per record says whether it is still running), start
    /// the animations the events ask for at `now`, and report whether any
    /// animation is still running.
    pub fn advance_animations(
        &mut self,
        config: &ListAnimation<A>,
        active_running: &Vec<bool>,
        ghosts_running: &Vec<bool>,
        now: I,
    ) -> (has_active_animations: bool)
        requires
            active_running.len() == old(self).0.animation_state.active.len(),
            ghosts_running.len() == old(self).0.animation_state.ghosts.len(),
        ensures
            final(self).0.pending_animation_events@.len() == 0,
            final(self).0.base_handle == old(self).0.base_handle,
            final(self).0.deferred_scroll_to_item == old(self).0.deferred_scroll_to_item,
            final(self).0.last_item_size == old(self).0.last_item_size,
            final(self).0.y_flipped == old(self).0.y_flipped,
            ({
                let kept = flagged(old(self).0.animation_state.active@, active_running@);
                let events = old(self).0.pending_animation_events@;
                let now_active = final(self).0.animation_state.active@;
                &&& active_keys(now_active) == active_keys(kept) + events_active_keys(events, *config)
                &&& forall|k: int| 0 <= k < kept.len() ==> #[trigger] now_active[k] == kept[k]
                &&& forall|k: int| kept.len() <= k < now_active.len() ==> started_active(#[trigger] now_active[k], *config, now)
            }),
            ({
                let kept = flagged(old(self).0.animation_state.ghosts@, ghosts_running@);
                let events = old(self).0.pending_animation_events@;
                let now_ghosts = final(self).0.animation_state.ghosts@;
                &&& ghost_entries(now_ghosts) == ghost_entries(kept) + events_ghost_entries(events, *config)
                &&& forall|k: int| 0 <= k < kept.len() ==> #[trigger] now_ghosts[k] == kept[k]
                &&& forall|k: int| kept.len() <= k < now_ghosts.len() ==> started_ghost(#[trigger] now_ghosts[k], *config, now)
            }),
            has_active_animations == (final(self).0.animation_state.active@.len() > 0
                || final(self).0.animation_state.ghosts@.len() > 0),
    {
        let mut pending: Vec<ListAnimationEvent<R>> = Vec::new();
        std::mem::swap(&mut pending, &mut self.0.pending_animation_events);
        self.0.animation_state.retain_running(active_running, ghosts_running);
        self.0.animation_state.apply_events(pending, config, now);
        self.0.animation_state.has_active_animations()
    }
}

/// The flag a list ends up with (always `y_flipped`) and the offset adjustment
/// it asks for when its flip is set to `y_flipped`, given its current flag and
/// the sizes measured in the last layout.
pub open spec fn y_flip_outcome<P>(flag: bool, last_item_size: Option<ItemSize<P>>, y_flipped: bool) -> (bool, YFlipAdjustment<P>) {
    match last_item_size {
        Some(size) => if flag != y_flipped {
            (y_flipped, YFlipAdjustment::Mirror(size))
        } else {
            (flag, YFlipAdjustment::Unchanged)
        },
        None => if y_flipped {
            (true, YFlipAdjustment::ToEnd)
        } else {
            (false, YFlipAdjustment::Unchanged)
        },
    }
}

/// Setting the flip always leaves the list flipped exactly as asked, measured
/// or not.
pub proof fn lemma_y_flip_sets_flag<P>(flag: bool, last_item_size: Option<ItemSize<P>>, y_flipped: bool)
    ensures
        y_flip_outcome(flag, last_item_size, y_flipped).0 == y_flipped,
{
}

/// Once the list has been measured, setting the same flip again changes nothing.
pub proof fn lemma_y_flip_settles_once_measured<P>(flag: bool, size: ItemSize<P>, y_flipped: bool)
    ensures
        ({
            let (f1, _) = y_flip_outcome(flag, Some(size), y_flipped);
            &&& f1 == y_flipped
            &&& y_flip_outcome(f1, Some(size), y_flipped) == (f1, YFlipAdjustment::<P>::Unchanged)
        }),
{
}

/// Flipping a measured list and flipping it back restores the flag, each time
/// mirroring the offset within the same measured content.
pub proof fn lemma_y_flip_round_trip<P>(flag: bool, size: ItemSize<P>)
    ensures
        y_flip_outcome(flag, Some(size), !flag) == (!flag, YFlipAdjustment::Mirror(size)),
        y_flip_outcome(!flag, Some(size), flag) == (flag, YFlipAdjustment::Mirror(size)),
{
}

/// The position that item `i` of `count` takes in the reversed order.
pub open spec fn mirror(i: int, count: int) -> int {
    count - 1 - i
}

/// Index arithmetic of a list flipped vertically: item `i` of `count` is drawn
/// where item `count - 1 - i` would be (saturating at zero).
pub open spec fn flip_index(i: int, count: int) -> int {
    if count - (i + 1) > 0 { count - (i + 1) } else { 0 }
}

/// The item that a scroll request for `item_index` places, among `item_count`
/// items: the request is clamped to the last item, then mirrored if the list
/// is flipped.
pub open spec fn target_index(item_index: usize, item_count: usize, y_flipped: bool) -> int {
    let max_item_index: int = if item_count > 0 { item_count - 1 } else { 0 };
    let clamped: int = if item_index < max_item_index { item_index as int } else { max_item_index };
    if y_flipped { flip_index(clamped, item_count as int) } else { clamped }
}

/// The item that a scroll request targets during layout.
pub fn scroll_target_index(item_index: usize, item_count: usize, y_flipped: bool) -> (r: usize)
    ensures
        r == target_index(item_index, item_count, y_flipped),
        item_count > 0 ==> r < item_count,
        item_count > 0 && !y_flipped ==> r == if item_index < item_count { item_index } else { (item_count - 1) as usize },
        item_count > 0 && y_flipped ==> r == item_count - 1 - (if item_index < item_count {
            item_index
        } else {
            (item_count - 1) as usize
        }),
        item_count == 0 ==> r == 0,
{
    let max_item_index = item_count.saturating_sub(1);
    let clamped = if item_index < max_item_index { item_index } else { max_item_index };
    if y_flipped {
        item_count.saturating_sub(clamped + 1)
    } else {
        clamped
    }
}

/// How a scroll request resolves: `None` when no scrolling happens, else the
/// strategy whose position the list scrolls to.
pub open spec fn resolved_strategy(strategy: ScrollStrategy, scroll_strict: bool, is_above: bool, is_below: bool) -> Option<ScrollStrategy> {
    if scroll_strict || is_above || is_below {
        match strategy {
            ScrollStrategy::Nearest => if is_above {
                Some(ScrollStrategy::Top)
            } else if is_below {
                Some(ScrollStrategy::Bottom)
            } else {
                None
            },
            other => Some(other),
        }
    } else {
        None
    }
}

/// Decide whether and how a scroll request moves the list. `is_above` says the
/// target item starts above the visible region and `is_below` that it ends
/// below it, where the caller has shrunk the region by the request's offset
/// from the edge the strategy names (the bottom for `Bottom`, the top
/// otherwise).
pub fn resolve_scroll_strategy(strategy: ScrollStrategy, scroll_strict: bool, is_above: bool, is_below: bool) -> (r: Option<ScrollStrategy>)
    ensures
        r == resolved_strategy(strategy, scroll_strict, is_above, is_below),
        strategy != ScrollStrategy::Nearest && (scroll_strict || is_above || is_below) ==> r == Some(strategy),
        !scroll_strict && !is_above && !is_below ==> r is None,
        strategy == ScrollStrategy::Nearest && is_above ==> r == Some(ScrollStrategy::Top),
        strategy == ScrollStrategy::Nearest && !is_above && is_below ==> r == Some(ScrollStrategy::Bottom),
        strategy == ScrollStrategy::Nearest && !is_above && !is_below ==> r is None,
{
    if scroll_strict || is_above || is_below {
        let mut strategy = strategy;
        if strategy == ScrollStrategy::Nearest {
            if is_above {
                strategy = ScrollStrategy::Top;
            } else if is_below {
                strategy = ScrollStrategy::Bottom;
            }
        }
        match strategy {
            ScrollStrategy::Nearest => None,
            other => Some(other),
        }
    } else {
        None
    }
}

/// The items drawn, from the first visible index to the last visible one,
/// bounded by the number of items.
pub fn visible_range(first_visible: usize, last_visible: usize, item_count: usize) -> (r: Range<usize>)
    ensures
        r.start == first_visible,
        r.end == if last_visible < item_count { last_visible } else { item_count },
{
    let end = if last_visible < item_count { last_visible } else { item_count };
    first_visible..end
}

/// The range of data items to render for a visible range of a list flipped
/// vertically (the rendered items are then drawn in reverse order).
pub fn flipped_range(visible: &Range<usize>, item_count: usize) -> (r: Range<usize>)
    ensures
        r.start == if visible.end < item_count { item_count - visible.end } else { 0 },
        r.end == if visible.start < item_count { item_count - visible.start } else { 0 },
{
    item_count.saturating_sub(visible.end)..item_count.saturating_sub(visible.start)
}

/// The items as drawn from the top: the rendered items themselves, or, for a
/// list flipped vertically, the same items in reverse, so that item 0 is at
/// the bottom.
pub fn rows_in_drawing_order<T>(items: Vec<T>, y_flipped: bool) -> (r: Vec<T>)
    ensures
        r@ == if y_flipped { items@.reverse() } else { items@ },
{
    if !y_flipped {
        return items;
    }
    let ghost orig = items@;
    let mut items = items;
    let mut rows: Vec<T> = Vec::new();
    while items.len() > 0
        invariant
            rows@ + items@.reverse() == orig.reverse(),
        decreases items@.len(),
    {
        let ghost before = items@;
        let last = items.pop().unwrap();
        proof {
            assert(before =~= items@.push(last));
            assert(before.reverse() =~= seq![last] + items@.reverse());
            assert(rows@.push(last) + items@.reverse() =~= rows@ + before.reverse());
        }
        rows.push(last);
    }
    proof {
        assert(rows@ + Seq::<T>::empty() =~= rows@);
        assert(items@.reverse() =~= Seq::<T>::empty());
    }
    rows
}

/// In a list flipped vertically, drawn row `a + i` of the visible rows
/// `a..b` shows item `count - 1 - (a + i)`: rendering the flipped range and
/// drawing it in reverse puts item 0 at the bottom.
pub proof fn lemma_flipped_rows_show_mirrored_items(a: usize, b: usize, count: usize)
    requires
        a <= b <= count,
    ensures
        ({
            let rendered = Seq::new((b - a) as nat, |k: int| (count - b) + k);
            forall|i: int| 0 <= i < b - a ==> #[trigger] rendered.reverse()[i] == mirror(a + i, count as int)
        }),
{
}

/// The item to measure for the width of the list: `None` for an empty list,
/// else the chosen index bounded by the last item.
pub fn measure_item_index(item_to_measure_index: usize, item_count: usize) -> (r: Option<usize>)
    ensures
        item_count == 0 ==> r is None,
        item_count > 0 ==> r == Some(
            if item_to_measure_index < item_count - 1 { item_to_measure_index } else { (item_count - 1) as usize },
        ),
{
    if item_count == 0 {
        return None;
    }
    let last = item_count - 1;
    Some(if item_to_measure_index < last { item_to_measure_index } else { last })
}

/// Mirroring an index twice gives it back.
pub proof fn lemma_flip_involutive(i: int, count: int)
    requires
        0 <= i < count,
    ensures
        0 <= flip_index(i, count) < count,
        flip_index(flip_index(i, count), count) == i,
{
}

/// Flipping a visible range within the list mirrors it: it keeps its length,
/// and item `i` is in the range exactly when `count - 1 - i` is in the flipped one.
pub proof fn lemma_flipped_range_mirrors(start: usize, end: usize, count: usize)
    requires
        start <= end <= count,
    ensures
        ({
            let fs = count - end;
            let fe = count - start;
            &&& fe - fs == end - start
            &&& forall|i: int| start <= i < end <==> fs <= #[trigger] mirror(i, count as int) < fe
        }),
{
}

/// A request for the last possible index, as `scroll_to_bottom` makes, targets
/// the last item of a non-empty list, or the first one when the list is flipped.
pub proof fn lemma_bottom_request_targets_last_item(item_count: usize, y_flipped: bool)
    requires
        item_count > 0,
    ensures
        target_index(usize::MAX, item_count, y_flipped) == if y_flipped { 0 } else { item_count - 1 },
{
}

/// Non-strict scrolling does not move a list whose target item is fully visible.
pub proof fn lemma_visible_item_not_scrolled(strategy: ScrollStrategy)
    ensures
        resolved_strategy(strategy, false, false, false) is None,
{
}

/// Strict scrolling always scrolls to the requested position, visible or not.
pub proof fn lemma_strict_scrolls_to_position(strategy: ScrollStrategy, is_above: bool, is_below: bool)
    requires
        strategy != ScrollStrategy::Nearest,
    ensures
        resolved_strategy(strategy, true, is_above, is_below) == Some(strategy),
{
}

/// `Nearest` brings an item above the view to the top and one below it to the
/// bottom, and leaves a visible item where it is.
pub proof fn lemma_nearest_picks_closest_edge(scroll_strict: bool, is_above: bool, is_below: bool)
    ensures
        is_above ==> resolved_strategy(ScrollStrategy::Nearest, scroll_strict, is_above, is_below) == Some(ScrollStrategy::Top),
        !is_above && is_below ==> resolved_strategy(ScrollStrategy::Nearest, scroll_strict, is_above, is_below) == Some(
            ScrollStrategy::Bottom,
        ),
        !is_above && !is_below ==> resolved_strategy(ScrollStrategy::Nearest, scroll_strict, is_above, is_below) is None,
{
}

/// A request for any strategy but `Nearest` whose item lies off screen, above
/// or below the view, scrolls to exactly the requested position, whether the
/// request is strict or not.
pub proof fn lemma_off_screen_keeps_strategy(
    strategy: ScrollStrategy,
    scroll_strict: bool,
    is_above: bool,
    is_below: bool,
)
    requires
        strategy != ScrollStrategy::Nearest,
        is_above || is_below,
    ensures
        resolved_strategy(strategy, scroll_strict, is_above, is_below) == Some(strategy),
{
}

/// Without a flip, a request targets the requested item, or the last item
/// when it asks for one past the end.
pub proof fn lemma_unflipped_target_clamps(item_index: usize, item_count: usize)
    requires
        item_count > 0,
    ensures
        target_index(item_index, item_count, false) == if item_index < item_count {
            item_index as int
        } else {
            item_count - 1
        },
{
}

/// In a flipped list a request targets the mirror image of the row it would
/// target without the flip: the first item becomes the last row and so on.
pub proof fn lemma_flipped_target_mirrors(item_index: usize, item_count: usize)
    requires
        item_count > 0,
    ensures
        target_index(item_index, item_count, true) == item_count - 1 - target_index(item_index, item_count, false),
{
}

/// A list not yet measured that is set flipped moves its offset to the far
/// end; one set unflipped keeps its offset.
pub proof fn lemma_y_flip_before_measure<P>(flag: bool, y_flipped: bool)
    ensures
        y_flip_outcome::<P>(flag, None, y_flipped).1 == if y_flipped {
            YFlipAdjustment::<P>::ToEnd
        } else {
            YFlipAdjustment::<P>::Unchanged
        },
{
}

/// A measured list whose flip does not change keeps its offset; one whose
/// flip changes mirrors it within the measured content.
pub proof fn lemma_y_flip_measured_adjustment<P>(flag: bool, size: ItemSize<P>, y_flipped: bool)
    ensures
        y_flip_outcome(flag, Some(size), y_flipped).1 == if flag == y_flipped {
            YFlipAdjustment::<P>::Unchanged
        } else {
            YFlipAdjustment::Mirror(size)
        },
{
}

/// A recorded request holds exactly the item, strategy, offset and strictness
/// it was made with.
pub proof fn lemma_request_records_arguments(item_index: usize, strategy: ScrollStrategy, offset: usize, scroll_strict: bool)
    ensures
        request(item_index, strategy, offset, scroll_strict).item_index == item_index,
        request(item_index, strategy, offset, scroll_strict).strategy == strategy,
        request(item_index, strategy, offset, scroll_strict).offset == offset,
        request(item_index, strategy, offset, scroll_strict).scroll_strict == scroll_strict,
{
}

} // verus!
