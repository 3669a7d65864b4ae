//! Matched geometry: an element that appears at a different position or size
//! than the element with the same `(namespace, id)` pair had in the previous
//! frame animates from the old bounds to the new ones.
//!
//! The bounds type `B` and the instant type `I` are the caller's. Whether an
//! animation has run its course and whether two bounds differ by more than the
//! threshold are floating-point questions that the caller answers; this
//! module makes the per-frame decision from those answers.
use crate::element_id::{make_element_id, matched_element_id, ElementId};
use crate::geometry::Corners;
use vstd::prelude::*;

verus! {

/// Identifies a matched geometry pair across the element tree.
#[derive(Clone, Debug, Hash, PartialEq, Eq)]
pub struct MatchedGeometryId {
    /// The namespace grouping related matched geometry pairs.
    pub namespace: ElementId,
    /// The specific identity within the namespace.
    pub id: ElementId,
}

/// Entry stored per frame in the window's matched geometry map.
#[derive(Clone, Copy, Debug)]
pub struct MatchedGeometryEntry<B> {
    /// The computed bounds of the element in this frame.
    pub bounds: B,
    /// The element's natural target bounds: `Some` while it is animating.
    pub natural_bounds: Option<B>,
}

impl<B> MatchedGeometryEntry<B> {
    /// The entry of a frame in which the element is at rest at `bounds`.
    pub fn settled(bounds: B) -> (r: Self)
        ensures
            r.bounds == bounds,
            r.natural_bounds is None,
    {
        MatchedGeometryEntry { bounds, natural_bounds: None }
    }

    /// The entry of a frame in which the element is drawn at `displayed` on its
    /// way to `natural`.
    pub fn animating(displayed: B, natural: B) -> (r: Self)
        ensures
            r.bounds == displayed,
            r.natural_bounds == Some(natural),
    {
        MatchedGeometryEntry { bounds: displayed, natural_bounds: Some(natural) }
    }
}

/// Per-element animation state persisted across frames.
#[derive(Clone, Copy, Debug)]
pub struct MatchedGeometryAnimState<B, I> {
    pub start: I,
    pub from_bounds: B,
    pub to_bounds: B,
}

/// A wrapper element that participates in matched geometry transitions.
pub struct MatchedGeometryElement<E, A, P> {
    /// The identifier under which the wrapper keeps its animation state.
    pub element_id: ElementId,
    pub matched_id: MatchedGeometryId,
    /// The wrapped element, until layout takes it.
    pub element: Option<E>,
    pub animation: A,
    /// Corner radii used for clipping during the size transition.
    pub corner_radii: Corners<P>,
}

impl<E, A, P> MatchedGeometryElement<E, A, P> {
    /// Layout takes the wrapped element out; it may do so only once.
    pub fn take_element(&mut self) -> (r: E)
        requires
            old(self).element is Some,
        ensures
            r == old(self).element.unwrap(),
            final(self).element is None,
            final(self).element_id == old(self).element_id,
            final(self).matched_id == old(self).matched_id,
            final(self).animation == old(self).animation,
            final(self).corner_radii == old(self).corner_radii,
    {
        let mut taken: Option<E> = None;
        std::mem::swap(&mut taken, &mut self.element);
        taken.unwrap()
    }
}

impl<E, A, P: Copy> MatchedGeometryElement<E, A, P> {
    /// Set the corner radii used for clipping during the size transition.
    pub fn with_corner_radii(self, radius: P) -> (r: Self)
        ensures
            r.corner_radii.is_all(radius),
            r.element_id == self.element_id,
            r.matched_id == self.matched_id,
            r.element == self.element,
            r.animation == self.animation,
    {
        MatchedGeometryElement { corner_radii: Corners::all(radius), ..self }
    }
}

/// Adds matched geometry to all elements.
pub trait MatchedGeometryExt: Sized {
    /// Participate in a matched geometry transition under the pair
    /// `(namespace, id)`, with the given animation and default corner radii.
    fn matched_geometry<A, P: Default + Copy>(self, namespace: ElementId, id: ElementId, animation: A) -> (r:
        MatchedGeometryElement<Self, A, P>)
        ensures
            r.element_id@ == matched_element_id(namespace@, id@),
            r.matched_id == (MatchedGeometryId { namespace, id }),
            r.element == Some(self),
            r.animation == animation,
            r.corner_radii.is_all(r.corner_radii.top_left),
            call_ensures(P::default, (), r.corner_radii.top_left),
    ;
}

impl<E> MatchedGeometryExt for E {
    fn matched_geometry<A, P: Default + Copy>(self, namespace: ElementId, id: ElementId, animation: A) -> (r:
        MatchedGeometryElement<Self, A, P>) {
        let element_id = make_element_id(&namespace, &id);
        let radius = P::default();
        MatchedGeometryElement {
            element_id,
            matched_id: MatchedGeometryId { namespace, id },
            element: Some(self),
            animation,
            corner_radii: Corners::all(radius),
        }
    }
}

/// The size of the layout wrapper to request around the element: the bounds
/// rendered in the previous frame when that frame was animating, so that a
/// flexible element keeps filling the larger space while it is clipped down.
pub open spec fn wrapper_size<B>(prev: Option<MatchedGeometryEntry<B>>) -> Option<B> {
    match prev {
        Some(e) => if e.natural_bounds is Some { Some(e.bounds) } else { None },
        None => None,
    }
}

/// Where the element wants to be: the natural target stored by an animating
/// previous frame, else the bounds that layout gave it.
pub open spec fn natural_target_of<B>(prev: Option<MatchedGeometryEntry<B>>, bounds: B) -> B {
    match prev {
        Some(e) => match e.natural_bounds {
            Some(n) => n,
            None => bounds,
        },
        None => bounds,
    }
}

/// Layout: the size of the wrapper layout to request, if any.
pub fn previous_frame_wrapper_size<B: Copy>(prev: Option<&MatchedGeometryEntry<B>>) -> (r: Option<B>)
    ensures
        r == wrapper_size(match prev {
            Some(e) => Some(*e),
            None => None,
        }),
{
    match prev {
        Some(entry) => match entry.natural_bounds {
            Some(_) => Some(entry.bounds),
            None => None,
        },
        None => None,
    }
}

/// Prepaint: the natural target bounds of the element this frame.
pub fn natural_target<B: Copy>(prev: Option<&MatchedGeometryEntry<B>>, bounds: B) -> (r: B)
    ensures
        r == natural_target_of(
            match prev {
                Some(e) => Some(*e),
                None => None,
            },
            bounds,
        ),
{
    match prev {
        Some(entry) => match entry.natural_bounds {
            Some(n) => n,
            None => bounds,
        },
        None => bounds,
    }
}

/// What the element does this frame.
#[derive(Clone, Copy, Debug)]
pub enum MatchedGeometryStep<B, I> {
    /// Not animating: draw in place at the layout bounds.
    Settled,
    /// Keep running the given animation: draw at the bounds interpolated
    /// between its ends at the eased progress.
    Continue(MatchedGeometryAnimState<B, I>),
    /// Start the given animation: draw at its starting bounds (the bounds of
    /// the previous frame).
    Start(MatchedGeometryAnimState<B, I>),
}

/// The decision of one frame. `finished` says that the running animation, if
/// any, has reached its end; `differs` that the previous frame's bounds, if
/// any, differ from the natural target by more than the threshold.
pub open spec fn step_of<B, I>(
    state: Option<MatchedGeometryAnimState<B, I>>,
    prev_bounds: Option<B>,
    natural_bounds: B,
    finished: bool,
    differs: bool,
    now: I,
) -> MatchedGeometryStep<B, I> {
    match state {
        Some(anim) if !finished => MatchedGeometryStep::Continue(anim),
        _ => match prev_bounds {
            Some(prev) => if differs {
                MatchedGeometryStep::Start(MatchedGeometryAnimState { start: now, from_bounds: prev, to_bounds: natural_bounds })
            } else {
                MatchedGeometryStep::Settled
            },
            None => MatchedGeometryStep::Settled,
        },
    }
}

/// Prepaint: continue a running animation, start one when the element moved
/// or resized since the previous frame (also right after an animation ended,
/// e.g. when the direction reversed), or settle.
pub fn advance_matched_geometry<B: Copy, I: Copy>(
    state: Option<MatchedGeometryAnimState<B, I>>,
    prev_bounds: Option<B>,
    natural_bounds: B,
    finished: bool,
    differs: bool,
    now: I,
) -> (r: MatchedGeometryStep<B, I>)
    ensures
        r == step_of(state, prev_bounds, natural_bounds, finished, differs, now),
{
    match state {
        Some(anim) => {
            if finished {
                match prev_bounds {
                    Some(prev) => if differs {
                        MatchedGeometryStep::Start(MatchedGeometryAnimState { start: now, from_bounds: prev, to_bounds: natural_bounds })
                    } else {
                        MatchedGeometryStep::Settled
                    },
                    None => MatchedGeometryStep::Settled,
                }
            } else {
                MatchedGeometryStep::Continue(anim)
            }
        },
        None => match prev_bounds {
            Some(prev) => if differs {
                MatchedGeometryStep::Start(MatchedGeometryAnimState { start: now, from_bounds: prev, to_bounds: natural_bounds })
            } else {
                MatchedGeometryStep::Settled
            },
            None => MatchedGeometryStep::Settled,
        },
    }
}

impl<B: Copy, I: Copy> MatchedGeometryStep<B, I> {
    /// The animation state to keep for the next frame.
    pub fn next_state(&self) -> (r: Option<MatchedGeometryAnimState<B, I>>)
        ensures
            r == match *self {
                MatchedGeometryStep::Settled => None,
                MatchedGeometryStep::Continue(s) => Some(s),
                MatchedGeometryStep::Start(s) => Some(s),
            },
    {
        match self {
            MatchedGeometryStep::Settled => None,
            MatchedGeometryStep::Continue(s) => Some(*s),
            MatchedGeometryStep::Start(s) => Some(*s),
        }
    }
}

/// An element that was elsewhere in the previous frame and is not animating
/// starts an animation from its previous bounds to its natural target; this
/// holds for growing and shrinking alike.
pub proof fn lemma_moved_element_starts_animation<B, I>(prev: B, natural: B, finished: bool, now: I)
    ensures
        step_of(None, Some(prev), natural, finished, true, now) == MatchedGeometryStep::Start(
            (MatchedGeometryAnimState { start: now, from_bounds: prev, to_bounds: natural }),
        ),
{
}

/// A running animation that has not reached its end keeps running unchanged.
pub proof fn lemma_running_animation_continues<B, I>(
    anim: MatchedGeometryAnimState<B, I>,
    prev_bounds: Option<B>,
    natural: B,
    differs: bool,
    now: I,
)
    ensures
        step_of(Some(anim), prev_bounds, natural, false, differs, now) == MatchedGeometryStep::Continue(anim),
{
}

/// When an animation ends while the target has moved again (e.g. the
/// direction reversed), a new animation starts from the previous bounds.
pub proof fn lemma_finished_animation_restarts_on_change<B, I>(
    anim: MatchedGeometryAnimState<B, I>,
    prev: B,
    natural: B,
    now: I,
)
    ensures
        step_of(Some(anim), Some(prev), natural, true, true, now) == MatchedGeometryStep::Start(
            (MatchedGeometryAnimState { start: now, from_bounds: prev, to_bounds: natural }),
        ),
{
}

/// Without a previous frame, or with nothing that moved, no new animation starts.
pub proof fn lemma_no_change_no_new_animation<B, I>(
    state: Option<MatchedGeometryAnimState<B, I>>,
    prev_bounds: Option<B>,
    natural: B,
    finished: bool,
    differs: bool,
    now: I,
)
    requires
        prev_bounds is None || !differs,
    ensures
        !(step_of(state, prev_bounds, natural, finished, differs, now) is Start),
{
}

/// Every animation that starts runs from the previous frame's bounds to the
/// element's natural target.
pub proof fn lemma_started_animation_ends_at_target<B, I>(
    state: Option<MatchedGeometryAnimState<B, I>>,
    prev_bounds: Option<B>,
    natural: B,
    finished: bool,
    differs: bool,
    now: I,
)
    ensures
        step_of(state, prev_bounds, natural, finished, differs, now) matches MatchedGeometryStep::Start(s) ==> {
            &&& prev_bounds == Some(s.from_bounds)
            &&& s.to_bounds == natural
            &&& s.start == now
        },
{
}

/// What a frame registers is what the next frame reads back: after an
/// animating frame the next layout wraps the element at the displayed size and
/// keeps aiming at the stored target; after a settled frame it does neither.
pub proof fn lemma_registration_round_trip<B>(displayed: B, natural: B, at_rest: B, bounds: B)
    ensures
        wrapper_size(Some((MatchedGeometryEntry { bounds: displayed, natural_bounds: Some(natural) }))) == Some(displayed),
        natural_target_of(Some((MatchedGeometryEntry { bounds: displayed, natural_bounds: Some(natural) })), bounds) == natural,
        wrapper_size(Some((MatchedGeometryEntry { bounds: at_rest, natural_bounds: None }))) is None,
        natural_target_of(Some((MatchedGeometryEntry { bounds: at_rest, natural_bounds: None })), bounds) == bounds,
{
}

/// When no animation is running (none was, or it has reached its end) and
/// nothing moved since the previous frame, or there was no previous frame,
/// the element settles in place.
pub proof fn lemma_nothing_moved_settles<B, I>(
    state: Option<MatchedGeometryAnimState<B, I>>,
    prev_bounds: Option<B>,
    natural: B,
    finished: bool,
    differs: bool,
    now: I,
)
    requires
        state is None || finished,
        prev_bounds is None || !differs,
    ensures
        step_of(state, prev_bounds, natural, finished, differs, now) is Settled,
{
}

/// Without a previous frame the element is neither wrapped nor redirected:
/// it aims at the bounds layout gave it.
pub proof fn lemma_first_frame_uses_layout<B>(bounds: B)
    ensures
        wrapper_size::<B>(None) is None,
        natural_target_of(None, bounds) == bounds,
{
}

} // verus!
