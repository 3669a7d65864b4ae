//! The configuration of a uniform list: a scrollable list of items of equal
//! height that measures one item and lays out only the visible ones.
//!
//! `F` renders a range of items, `D` is a decoration, `H` the shared scroll
//! handle and `A` the animation description.
use crate::element_id::ElementId;
use crate::list_animation::ListAnimation;
use crate::scroll::measure_item_index;
use vstd::prelude::*;

verus! {

/// How the list's height is determined.
#[derive(Clone, Copy, Debug, PartialEq, Eq, Structural)]
pub enum ListSizingBehavior {
    /// The list is as tall as its items, within the available space.
    Infer,
    /// The list takes the size its style gives it.
    Auto,
}

/// How items are laid out horizontally.
#[derive(Clone, Copy, Debug, PartialEq, Eq, Structural)]
pub enum ListHorizontalSizingBehavior {
    /// Items are as wide as the list.
    FitList,
    /// Every item and the list have the width of the widest item, and the
    /// list scrolls horizontally.
    Unconstrained,
}

/// What happens to content that overflows an element.
#[derive(Clone, Copy, Debug, PartialEq, Eq, Structural)]
pub enum Overflow {
    Visible,
    Clip,
    Hidden,
    Scroll,
}

/// A list element for laying out and displaying a list of uniform-height elements.
pub struct UniformList<F, D, H, A> {
    pub id: ElementId,
    pub item_count: usize,
    /// The item whose width is measured.
    pub item_to_measure_index: usize,
    pub render_items: F,
    pub decorations: Vec<D>,
    pub scroll_handle: Option<H>,
    pub sizing_behavior: ListSizingBehavior,
    pub horizontal_sizing_behavior: ListHorizontalSizingBehavior,
    pub animation: Option<ListAnimation<A>>,
    /// Horizontal overflow of the list's base style.
    pub overflow_x: Option<Overflow>,
    /// Vertical overflow of the list's base style.
    pub overflow_y: Option<Overflow>,
}

/// Create a list of `item_count` items rendered by `render_items`; it scrolls
/// vertically, measures the first item, takes the height its style gives it
/// and fits its items to its width.
pub fn uniform_list<F, D, H, A>(id: ElementId, item_count: usize, render_items: F) -> (r: UniformList<F, D, H, A>)
    ensures
        r.id == id,
        r.item_count == item_count,
        r.item_to_measure_index == 0,
        r.render_items == render_items,
        r.decorations@.len() == 0,
        r.scroll_handle is None,
        r.sizing_behavior == ListSizingBehavior::Auto,
        r.horizontal_sizing_behavior == ListHorizontalSizingBehavior::FitList,
        r.animation is None,
        r.overflow_x is None,
        r.overflow_y == Some(Overflow::Scroll),
{
    UniformList {
        id,
        item_count,
        item_to_measure_index: 0,
        render_items,
        decorations: Vec::new(),
        scroll_handle: None,
        sizing_behavior: ListSizingBehavior::Auto,
        horizontal_sizing_behavior: ListHorizontalSizingBehavior::FitList,
        animation: None,
        overflow_x: None,
        overflow_y: Some(Overflow::Scroll),
    }
}

/// Two lists that agree on everything but the fields a builder sets.
pub open spec fn same_items<F, D, H, A>(a: UniformList<F, D, H, A>, b: UniformList<F, D, H, A>) -> bool {
    &&& a.id == b.id
    &&& a.item_count == b.item_count
    &&& a.render_items == b.render_items
}

impl<F, D, H, A> UniformList<F, D, H, A> {
    /// Selects a specific list item for measurement (the first one for `None`).
    pub fn with_width_from_item(self, item_index: Option<usize>) -> (r: Self)
        ensures
            r.item_to_measure_index == match item_index {
                Some(i) => i,
                None => 0,
            },
            same_items(self, r),
            r.decorations == self.decorations,
            r.scroll_handle == self.scroll_handle,
            r.sizing_behavior == self.sizing_behavior,
            r.horizontal_sizing_behavior == self.horizontal_sizing_behavior,
            r.animation == self.animation,
            r.overflow_x == self.overflow_x,
            r.overflow_y == self.overflow_y,
    {
        let index = match item_index {
            Some(i) => i,
            None => 0,
        };
        UniformList { item_to_measure_index: index, ..self }
    }

    /// Sets the sizing behavior.
    pub fn with_sizing_behavior(self, behavior: ListSizingBehavior) -> (r: Self)
        ensures
            r.sizing_behavior == behavior,
            same_items(self, r),
            r.item_to_measure_index == self.item_to_measure_index,
            r.decorations == self.decorations,
            r.scroll_handle == self.scroll_handle,
            r.horizontal_sizing_behavior == self.horizontal_sizing_behavior,
            r.animation == self.animation,
            r.overflow_x == self.overflow_x,
            r.overflow_y == self.overflow_y,
    {
        UniformList { sizing_behavior: behavior, ..self }
    }

    /// Sets the horizontal sizing behavior; an unconstrained list scrolls
    /// horizontally, a list that fits its items does not.
    pub fn with_horizontal_sizing_behavior(self, behavior: ListHorizontalSizingBehavior) -> (r: Self)
        ensures
            r.horizontal_sizing_behavior == behavior,
            r.overflow_x == match behavior {
                ListHorizontalSizingBehavior::FitList => None,
                ListHorizontalSizingBehavior::Unconstrained => Some(Overflow::Scroll),
            },
            same_items(self, r),
            r.item_to_measure_index == self.item_to_measure_index,
            r.decorations == self.decorations,
            r.scroll_handle == self.scroll_handle,
            r.sizing_behavior == self.sizing_behavior,
            r.animation == self.animation,
            r.overflow_y == self.overflow_y,
    {
        let overflow_x = match behavior {
            ListHorizontalSizingBehavior::FitList => None,
            ListHorizontalSizingBehavior::Unconstrained => Some(Overflow::Scroll),
        };
        UniformList { horizontal_sizing_behavior: behavior, overflow_x, ..self }
    }

    /// Adds a decoration element to the list.
    pub fn with_decoration(self, decoration: D) -> (r: Self)
        ensures
            r.decorations@ == self.decorations@.push(decoration),
            same_items(self, r),
            r.item_to_measure_index == self.item_to_measure_index,
            r.scroll_handle == self.scroll_handle,
            r.sizing_behavior == self.sizing_behavior,
            r.horizontal_sizing_behavior == self.horizontal_sizing_behavior,
            r.animation == self.animation,
            r.overflow_x == self.overflow_x,
            r.overflow_y == self.overflow_y,
    {
        let mut list = self;
        list.decorations.push(decoration);
        list
    }

    /// Enable animations for list item insertions, removals, and/or moves.
    pub fn animate(self, animation: ListAnimation<A>) -> (r: Self)
        ensures
            r.animation == Some(animation),
            same_items(self, r),
            r.item_to_measure_index == self.item_to_measure_index,
            r.decorations == self.decorations,
            r.scroll_handle == self.scroll_handle,
            r.sizing_behavior == self.sizing_behavior,
            r.horizontal_sizing_behavior == self.horizontal_sizing_behavior,
            r.overflow_x == self.overflow_x,
            r.overflow_y == self.overflow_y,
    {
        UniformList { animation: Some(animation), ..self }
    }

    /// The item to measure: `None` for an empty list, else the selected item
    /// bounded by the last one.
    pub fn item_to_measure(&self) -> (r: Option<usize>)
        ensures
            self.item_count == 0 ==> r is None,
            self.item_count > 0 ==> r == Some(
                if self.item_to_measure_index < self.item_count - 1 {
                    self.item_to_measure_index
                } else {
                    (self.item_count - 1) as usize
                },
            ),
    {
        measure_item_index(self.item_to_measure_index, self.item_count)
    }
}

impl<F, D, H: Clone, A> UniformList<F, D, H, A> {
    /// Track and render the scroll state of this list with (a clone of) the
    /// given shared scroll handle.
    pub fn track_scroll(self, handle: &H) -> (r: Self)
        ensures
            r.scroll_handle is Some,
            cloned(*handle, r.scroll_handle.unwrap()),
            same_items(self, r),
            r.item_to_measure_index == self.item_to_measure_index,
            r.decorations == self.decorations,
            r.sizing_behavior == self.sizing_behavior,
            r.horizontal_sizing_behavior == self.horizontal_sizing_behavior,
            r.animation == self.animation,
            r.overflow_x == self.overflow_x,
            r.overflow_y == self.overflow_y,
    {
        UniformList { scroll_handle: Some(handle.clone()), ..self }
    }
}

} // verus!
