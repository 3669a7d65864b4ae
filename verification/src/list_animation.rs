//! Insert, remove and move animations of a uniform list.
//!
//! The animation configuration (`ListAnimation`) and the per-item animation
//! records are generic over the animation description `A` (duration and easing
//! curve), the instant type `I` at which an animation started, and the ghost
//! renderer `R` of a removed item. Evaluating an easing curve at a point in time
//! is floating-point work and is left to the caller; this module decides which
//! animations exist, which are dropped, and which of them touch a given item.
use std::ops::Range;
use vstd::prelude::*;

verus! {

/// Configuration for animating list item insertions, removals, and moves.
pub struct ListAnimation<A> {
    /// Animation applied to newly inserted items (fade in).
    pub on_insert: Option<A>,
    /// Animation applied to removed items (fade out ghost).
    pub on_remove: Option<A>,
    /// Animation applied to moved items (slide to new position).
    pub on_move: Option<A>,
}

impl<A> ListAnimation<A> {
    /// Create a new, empty list animation configuration.
    pub fn new() -> (r: Self)
        ensures
            r.on_insert is None,
            r.on_remove is None,
            r.on_move is None,
    {
        ListAnimation { on_insert: None, on_remove: None, on_move: None }
    }

    /// Set the animation for newly inserted items.
    pub fn on_insert(self, animation: A) -> (r: Self)
        ensures
            r.on_insert == Some(animation),
            r.on_remove == self.on_remove,
            r.on_move == self.on_move,
    {
        ListAnimation { on_insert: Some(animation), ..self }
    }

    /// Set the animation for removed items (ghost fade-out).
    pub fn on_remove(self, animation: A) -> (r: Self)
        ensures
            r.on_insert == self.on_insert,
            r.on_remove == Some(animation),
            r.on_move == self.on_move,
    {
        ListAnimation { on_remove: Some(animation), ..self }
    }

    /// Set the animation for items that moved to a new index.
    pub fn on_move(self, animation: A) -> (r: Self)
        ensures
            r.on_insert == self.on_insert,
            r.on_remove == self.on_remove,
            r.on_move == Some(animation),
    {
        ListAnimation { on_move: Some(animation), ..self }
    }

    /// The configured animation for the given kind of change.
    pub open spec fn for_kind(self, kind: AnimationKind) -> Option<A> {
        match kind {
            AnimationKind::Insert => self.on_insert,
            AnimationKind::Remove => self.on_remove,
            AnimationKind::Move => self.on_move,
        }
    }
}

/// Describes an item that was removed from the list, for ghost animation.
pub struct RemovedItem<R> {
    /// The item's index in the list before removal.
    pub index: usize,
    /// Renders the ghost element on each frame.
    pub render: R,
}

/// A change to the list, queued until the next layout pass.
pub enum ListAnimationEvent<R> {
    /// Items were inserted at the given index range.
    Inserted { range: Range<usize> },
    /// Items are about to be removed.
    Removed { removals: Vec<RemovedItem<R>> },
    /// Items moved; each pair is `(from_index, to_index)`.
    Moved { moves: Vec<(usize, usize)> },
}

/// The kind of animation being applied to an item.
#[derive(Clone, Copy, Debug, PartialEq, Eq, Structural)]
pub enum AnimationKind {
    Insert,
    Remove,
    Move,
}

/// Per-item animation tracked across frames.
pub struct ActiveItemAnimation<A, I> {
    pub kind: AnimationKind,
    /// When the animation started.
    pub start: I,
    /// Duration and easing of the animation, taken from the configuration.
    pub animation: A,
    /// For an insertion: the inserted index. For a move: the index before the move.
    pub from_index: usize,
    /// For an insertion: the inserted index. For a move: the index after the move.
    pub to_index: usize,
}

/// A removed item still being rendered during its exit animation.
pub struct GhostItem<A, I, R> {
    /// The item's index before removal (used for positioning).
    pub original_index: usize,
    pub start: I,
    pub animation: A,
    pub render: R,
}

/// Animation state persisted across frames.
pub struct UniformListAnimationState<A, I, R> {
    pub active: Vec<ActiveItemAnimation<A, I>>,
    pub ghosts: Vec<GhostItem<A, I, R>>,
}

/// An active animation that was started at `now` with (a clone of) the
/// animation configured for its kind.
pub open spec fn started_active<A: Clone, I>(a: ActiveItemAnimation<A, I>, config: ListAnimation<A>, now: I) -> bool {
    &&& a.start == now
    &&& config.for_kind(a.kind) is Some
    &&& cloned(config.for_kind(a.kind).unwrap(), a.animation)
}

/// A ghost that was started at `now` with (a clone of) the removal animation.
pub open spec fn started_ghost<A: Clone, I, R>(g: GhostItem<A, I, R>, config: ListAnimation<A>, now: I) -> bool {
    &&& g.start == now
    &&& config.on_remove is Some
    &&& cloned(config.on_remove.unwrap(), g.animation)
}

/// What identifies an active animation: its kind and its two indices.
pub open spec fn active_key<A, I>(a: ActiveItemAnimation<A, I>) -> (AnimationKind, usize, usize) {
    (a.kind, a.from_index, a.to_index)
}

pub open spec fn active_keys<A, I>(s: Seq<ActiveItemAnimation<A, I>>) -> Seq<(AnimationKind, usize, usize)> {
    s.map_values(|a: ActiveItemAnimation<A, I>| active_key(a))
}

/// What identifies a ghost: its original index and its renderer.
pub open spec fn ghost_entries<A, I, R>(s: Seq<GhostItem<A, I, R>>) -> Seq<(usize, R)> {
    s.map_values(|g: GhostItem<A, I, R>| (g.original_index, g.render))
}

/// The insertion animations that an inserted range asks for, one per index.
pub open spec fn inserted_keys(range: Range<usize>) -> Seq<(AnimationKind, usize, usize)> {
    let n: int = if range.start < range.end { range.end - range.start } else { 0 };
    Seq::new(n as nat, |k: int| (AnimationKind::Insert, (range.start + k) as usize, (range.start + k) as usize))
}

pub open spec fn moved_keys(moves: Seq<(usize, usize)>) -> Seq<(AnimationKind, usize, usize)> {
    moves.map_values(|m: (usize, usize)| (AnimationKind::Move, m.0, m.1))
}

/// The active animations that one event starts under the given configuration.
pub open spec fn event_active_keys<A, R>(event: ListAnimationEvent<R>, config: ListAnimation<A>) -> Seq<(AnimationKind, usize, usize)> {
    match event {
        ListAnimationEvent::Inserted { range } => if config.on_insert is Some { inserted_keys(range) } else { Seq::empty() },
        ListAnimationEvent::Moved { moves } => if config.on_move is Some { moved_keys(moves@) } else { Seq::empty() },
        ListAnimationEvent::Removed { .. } => Seq::empty(),
    }
}

/// The ghosts that one event starts under the given configuration.
pub open spec fn event_ghost_entries<A, R>(event: ListAnimationEvent<R>, config: ListAnimation<A>) -> Seq<(usize, R)> {
    match event {
        ListAnimationEvent::Removed { removals } => if config.on_remove is Some {
            removals@.map_values(|r: RemovedItem<R>| (r.index, r.render))
        } else {
            Seq::empty()
        },
        _ => Seq::empty(),
    }
}

/// The active animations that a sequence of events starts, in event order.
pub open spec fn events_active_keys<A, R>(events: Seq<ListAnimationEvent<R>>, config: ListAnimation<A>) -> Seq<(AnimationKind, usize, usize)>
    decreases events.len(),
{
    if events.len() == 0 {
        Seq::empty()
    } else {
        events_active_keys(events.drop_last(), config) + event_active_keys(events.last(), config)
    }
}

/// The ghosts that a sequence of events starts, in event order.
pub open spec fn events_ghost_entries<A, R>(events: Seq<ListAnimationEvent<R>>, config: ListAnimation<A>) -> Seq<(usize, R)>
    decreases events.len(),
{
    if events.len() == 0 {
        Seq::empty()
    } else {
        events_ghost_entries(events.drop_last(), config) + event_ghost_entries(events.last(), config)
    }
}

/// The items of `s` whose flag in `keep` is set, in order.
pub open spec fn flagged<T>(s: Seq<T>, keep: Seq<bool>) -> Seq<T>
    decreases s.len(),
{
    if s.len() == 0 || keep.len() == 0 {
        Seq::empty()
    } else if keep.last() {
        flagged(s.drop_last(), keep.drop_last()).push(s.last())
    } else {
        flagged(s.drop_last(), keep.drop_last())
    }
}

/// The number of set flags.
pub open spec fn count_set(keep: Seq<bool>) -> nat
    decreases keep.len(),
{
    if keep.len() == 0 {
        0
    } else {
        count_set(keep.drop_last()) + if keep.last() { 1nat } else { 0nat }
    }
}

/// Whether an active animation changes how item `ix` is drawn: an insertion
/// fades in the inserted item, a move slides the item at its new index.
pub open spec fn affects_item<A, I>(a: ActiveItemAnimation<A, I>, ix: usize) -> bool {
    ||| a.kind == AnimationKind::Insert && a.from_index == ix
    ||| a.kind == AnimationKind::Move && a.to_index == ix
}

/// Indices `k` (ascending) of the animations in `s` that affect item `ix`.
pub open spec fn affecting<A, I>(s: Seq<ActiveItemAnimation<A, I>>, ix: usize) -> Seq<usize>
    decreases s.len(),
{
    if s.len() == 0 {
        Seq::empty()
    } else if affects_item(s.last(), ix) {
        affecting(s.drop_last(), ix).push((s.len() - 1) as usize)
    } else {
        affecting(s.drop_last(), ix)
    }
}

/// An item is drawn with every active animation that changes it, and only
/// those: an insertion at its index fades it in and a move to its index
/// slides it, however many of each there are. The indices come in the order
/// the animations were started, each once.
pub proof fn lemma_item_gets_every_matching_animation<A, I>(s: Seq<ActiveItemAnimation<A, I>>, ix: usize)
    requires
        s.len() <= usize::MAX,
    ensures
        forall|k: int|
            0 <= k < s.len() ==> (affecting(s, ix).contains(k as usize) <==> ((s[k].kind
                == AnimationKind::Insert && s[k].from_index == ix) || (s[k].kind == AnimationKind::Move
                && s[k].to_index == ix))),
        forall|i: int| 0 <= i < affecting(s, ix).len() ==> affecting(s, ix)[i] < s.len(),
        forall|i: int, j: int|
            0 <= i < j < affecting(s, ix).len() ==> affecting(s, ix)[i] < affecting(s, ix)[j],
    decreases s.len(),
{
    if s.len() > 0 {
        let t = s.drop_last();
        lemma_item_gets_every_matching_animation(t, ix);
        let r = affecting(s, ix);
        let rt = affecting(t, ix);
        let last = (s.len() - 1) as usize;
        assert forall|k: int| 0 <= k < s.len() implies (r.contains(k as usize) <==> ((s[k].kind
            == AnimationKind::Insert && s[k].from_index == ix) || (s[k].kind == AnimationKind::Move
            && s[k].to_index == ix))) by {
            if k < s.len() - 1 {
                assert(t[k] == s[k]);
                if affects_item(s.last(), ix) {
                    assert(r == rt.push(last));
                    if r.contains(k as usize) {
                        let j = choose|j: int| 0 <= j < r.len() && r[j] == k as usize;
                        if j < rt.len() {
                            assert(rt[j] == k as usize);
                        }
                    }
                    if rt.contains(k as usize) {
                        let j = choose|j: int| 0 <= j < rt.len() && rt[j] == k as usize;
                        assert(r[j] == k as usize);
                    }
                }
            } else {
                if affects_item(s.last(), ix) {
                    assert(r[r.len() - 1] == last);
                } else {
                    if r.contains(k as usize) {
                        let j = choose|j: int| 0 <= j < r.len() && r[j] == k as usize;
                        assert(rt[j] < t.len());
                    }
                }
            }
        }
    }
}

/// Whether position `i` is flagged.
pub open spec fn flag_at(keep: Seq<bool>) -> spec_fn(int) -> bool {
    |i: int| keep[i]
}

/// The item at position `i`.
pub open spec fn item_at<T>(s: Seq<T>) -> spec_fn(int) -> T {
    |i: int| s[i]
}

/// The positions `0..n`, in order.
pub open spec fn positions(n: nat) -> Seq<int> {
    Seq::new(n, |i: int| i)
}

/// The identity on flags.
pub open spec fn is_set() -> spec_fn(bool) -> bool {
    |b: bool| b
}

/// The items kept by `flagged` are those at the flagged positions of the
/// first `m` items, in order.
proof fn lemma_flagged_prefix<T>(s: Seq<T>, keep: Seq<bool>, m: int)
    requires
        s.len() == keep.len(),
        0 <= m <= s.len(),
    ensures
        flagged(s.take(m), keep.take(m)) == positions(m as nat).filter(flag_at(keep)).map_values(item_at(s)),
    decreases m,
{
    reveal(Seq::filter);
    let idx = positions(m as nat);
    if m == 0 {
        assert(idx.filter(flag_at(keep)) =~= Seq::<int>::empty());
        assert(flagged(s.take(m), keep.take(m)) =~= Seq::<T>::empty());
    } else {
        lemma_flagged_prefix(s, keep, m - 1);
        assert(s.take(m).drop_last() =~= s.take(m - 1));
        assert(keep.take(m).drop_last() =~= keep.take(m - 1));
        assert(idx.drop_last() =~= positions((m - 1) as nat));
        let sub = positions((m - 1) as nat).filter(flag_at(keep));
        assert(idx.last() == m - 1);
        assert(flag_at(keep)(m - 1) == keep[m - 1]);
        assert(s.take(m).last() == s[m - 1]);
        assert(keep.take(m).last() == keep[m - 1]);
        if keep[m - 1] {
            assert(idx.filter(flag_at(keep)) == sub.push(m - 1));
            assert(sub.push(m - 1).map_values(item_at(s)) =~= sub.map_values(item_at(s)).push(s[m - 1]));
        } else {
            assert(idx.filter(flag_at(keep)) == sub);
        }
    }
}

proof fn lemma_count_set_counts(keep: Seq<bool>)
    ensures
        count_set(keep) == keep.filter(is_set()).len(),
    decreases keep.len(),
{
    reveal(Seq::filter);
    if keep.len() > 0 {
        lemma_count_set_counts(keep.drop_last());
        assert(is_set()(keep.last()) == keep.last());
    }
}

/// Retiring the finished animations keeps exactly the records whose flag is
/// set, each once and in their original order, and as many as there are set
/// flags.
pub proof fn lemma_flagged_keeps_flagged_in_order<T>(s: Seq<T>, keep: Seq<bool>)
    requires
        s.len() == keep.len(),
    ensures
        flagged(s, keep) == positions(s.len()).filter(flag_at(keep)).map_values(item_at(s)),
        count_set(keep) == keep.filter(is_set()).len(),
{
    lemma_flagged_prefix(s, keep, s.len() as int);
    assert(s.take(s.len() as int) =~= s);
    assert(keep.take(keep.len() as int) =~= keep);
    lemma_count_set_counts(keep);
}

/// What one event starts: an inserted range fades in each of its items, a
/// move slides each moved item from its old index to its new one, and a
/// removal starts no active animation but a ghost per removed item, each
/// only when its kind of animation is configured.
pub proof fn lemma_event_starts_configured_animations<A, R>(event: ListAnimationEvent<R>, config: ListAnimation<A>)
    ensures
        ({
            let keys = event_active_keys(event, config);
            let ghosts = event_ghost_entries(event, config);
            &&& event matches ListAnimationEvent::Inserted { range } ==> {
                &&& config.on_insert is None ==> keys.len() == 0
                &&& config.on_insert is Some ==> keys.len() == (if range.start < range.end {
                    range.end - range.start
                } else {
                    0
                }) && forall|k: int|
                    0 <= k < keys.len() ==> #[trigger] keys[k] == (
                        AnimationKind::Insert,
                        (range.start + k) as usize,
                        (range.start + k) as usize,
                    )
                &&& ghosts.len() == 0
            }
            &&& event matches ListAnimationEvent::Moved { moves } ==> {
                &&& config.on_move is None ==> keys.len() == 0
                &&& config.on_move is Some ==> keys.len() == moves@.len() && forall|k: int|
                    0 <= k < keys.len() ==> #[trigger] keys[k] == (AnimationKind::Move, moves@[k].0, moves@[k].1)
                &&& ghosts.len() == 0
            }
            &&& event matches ListAnimationEvent::Removed { removals } ==> {
                &&& keys.len() == 0
                &&& config.on_remove is None ==> ghosts.len() == 0
                &&& config.on_remove is Some ==> ghosts.len() == removals@.len() && forall|k: int|
                    0 <= k < ghosts.len() ==> #[trigger] ghosts[k] == (removals@[k].index, removals@[k].render)
            }
        }),
{
}

/// With no pending events nothing starts.
pub proof fn lemma_no_events_start_nothing<A, R>(config: ListAnimation<A>)
    ensures
        events_active_keys(Seq::<ListAnimationEvent<R>>::empty(), config).len() == 0,
        events_ghost_entries(Seq::<ListAnimationEvent<R>>::empty(), config).len() == 0,
{
}

/// Events are processed in the order they were notified: a later event's
/// animations come after those of all earlier events.
pub proof fn lemma_later_event_later_animations<A, R>(
    events: Seq<ListAnimationEvent<R>>,
    event: ListAnimationEvent<R>,
    config: ListAnimation<A>,
)
    ensures
        events_active_keys(events.push(event), config) == events_active_keys(events, config) + event_active_keys(
            event,
            config,
        ),
        events_ghost_entries(events.push(event), config) == events_ghost_entries(events, config)
            + event_ghost_entries(event, config),
{
    assert(events.push(event).drop_last() =~= events);
}

/// An inserted range of `n` items fades in `n` items, one per index.
pub proof fn lemma_inserted_range_fades_in_each_item(range: Range<usize>, k: int)
    requires
        range.start <= range.start + k < range.end,
    ensures
        inserted_keys(range).len() == range.end - range.start,
        inserted_keys(range)[k] == (AnimationKind::Insert, (range.start + k) as usize, (range.start + k) as usize),
{
}

/// Removals never become active animations: they are drawn as ghosts.
pub proof fn lemma_removals_only_become_ghosts<A, R>(events: Seq<ListAnimationEvent<R>>, config: ListAnimation<A>)
    ensures
        forall|k: int| 0 <= k < events_active_keys(events, config).len() ==> (#[trigger] events_active_keys(events, config)[k]).0 != AnimationKind::Remove,
    decreases events.len(),
{
    if events.len() > 0 {
        lemma_removals_only_become_ghosts(events.drop_last(), config);
        let prefix = events_active_keys(events.drop_last(), config);
        let last = event_active_keys(events.last(), config);
        assert forall|k: int| 0 <= k < (prefix + last).len() implies (#[trigger] (prefix + last)[k]).0 != AnimationKind::Remove by {
            if k >= prefix.len() {
                assert((prefix + last)[k] == last[k - prefix.len()]);
            } else {
                assert((prefix + last)[k] == prefix[k]);
            }
        }
    }
}

/// Keep the items of `items` whose flag is set, in order.
pub fn retain_flagged<T>(items: &mut Vec<T>, keep: &Vec<bool>)
    requires
        old(items).len() == keep.len(),
    ensures
        final(items)@ == flagged(old(items)@, keep@),
        final(items)@.len() == count_set(keep@),
{
    let ghost orig = items@;
    let mut kept: Vec<T> = Vec::new();
    let mut i: usize = 0;
    let n = keep.len();
    while i < n
        invariant
            n == keep.len(),
            orig.len() == n,
            i <= n,
            items@ == orig.skip(i as int),
            kept@ == flagged(orig.take(i as int), keep@.take(i as int)),
            kept@.len() == count_set(keep@.take(i as int)),
        decreases n - i,
    {
        let x = items.remove(0);
        proof {
            assert(orig.take(i + 1).drop_last() =~= orig.take(i as int));
            assert(keep@.take(i + 1).drop_last() =~= keep@.take(i as int));
            assert(orig.skip(i as int).remove(0) =~= orig.skip(i + 1));
        }
        if keep[i] {
            kept.push(x);
        }
        i = i + 1;
    }
    proof {
        assert(orig.take(n as int) =~= orig);
        assert(keep@.take(n as int) =~= keep@);
    }
    *items = kept;
}

impl<A, I, R> UniformListAnimationState<A, I, R> {
    /// An empty animation state.
    pub fn new() -> (r: Self)
        ensures
            r.active@.len() == 0,
            r.ghosts@.len() == 0,
    {
        UniformListAnimationState { active: Vec::new(), ghosts: Vec::new() }
    }

    /// Whether any animation or ghost is still running.
    pub fn has_active_animations(&self) -> (r: bool)
        ensures
            r == (self.active@.len() > 0 || self.ghosts@.len() > 0),
    {
        self.active.len() > 0 || self.ghosts.len() > 0
    }

    /// Drop the finished animations and ghosts; a flag is set for each
    /// record that is still running.
    pub fn retain_running(&mut self, active_running: &Vec<bool>, ghosts_running: &Vec<bool>)
        requires
            active_running.len() == old(self).active.len(),
            ghosts_running.len() == old(self).ghosts.len(),
        ensures
            final(self).active@ == flagged(old(self).active@, active_running@),
            final(self).ghosts@ == flagged(old(self).ghosts@, ghosts_running@),
    {
        retain_flagged(&mut self.active, active_running);
        retain_flagged(&mut self.ghosts, ghosts_running);
    }

    /// Indices into `self.active`, ascending, of the animations that change
    /// how item `ix` is drawn.
    pub fn animations_for_item(&self, ix: usize) -> (r: Vec<usize>)
        ensures
            r@ == affecting(self.active@, ix),
            forall|k: int|
                0 <= k < self.active@.len() ==> (r@.contains(k as usize) <==> ((self.active@[k].kind
                    == AnimationKind::Insert && self.active@[k].from_index == ix) || (self.active@[k].kind
                    == AnimationKind::Move && self.active@[k].to_index == ix))),
            forall|i: int| 0 <= i < r@.len() ==> r@[i] < self.active@.len(),
            forall|i: int, j: int| 0 <= i < j < r@.len() ==> r@[i] < r@[j],
    {
        let mut r: Vec<usize> = Vec::new();
        let mut k: usize = 0;
        while k < self.active.len()
            invariant
                k <= self.active@.len(),
                r@ == affecting(self.active@.take(k as int), ix),
            decreases self.active@.len() - k,
        {
            proof {
                assert(self.active@.take(k + 1).drop_last() =~= self.active@.take(k as int));
            }
            let a = &self.active[k];
            if (a.kind == AnimationKind::Insert && a.from_index == ix) || (a.kind == AnimationKind::Move
                && a.to_index == ix) {
                r.push(k);
            }
            k = k + 1;
        }
        proof {
            assert(self.active@.take(self.active@.len() as int) =~= self.active@);
            lemma_item_gets_every_matching_animation(self.active@, ix);
        }
        r
    }
}

impl<A: Clone, I: Copy, R> UniformListAnimationState<A, I, R> {
    /// Start the animations that the given events ask for, all at `now`.
    /// Events whose kind has no configured animation start nothing.
    pub fn apply_events(&mut self, events: Vec<ListAnimationEvent<R>>, config: &ListAnimation<A>, now: I)
        ensures
            active_keys(final(self).active@) == active_keys(old(self).active@) + events_active_keys(events@, *config),
            ghost_entries(final(self).ghosts@) == ghost_entries(old(self).ghosts@) + events_ghost_entries(events@, *config),
            forall|k: int| 0 <= k < old(self).active@.len() ==> #[trigger] final(self).active@[k] == old(self).active@[k],
            forall|k: int| 0 <= k < old(self).ghosts@.len() ==> #[trigger] final(self).ghosts@[k] == old(self).ghosts@[k],
            forall|k: int| old(self).active@.len() <= k < final(self).active@.len() ==> started_active(#[trigger] final(self).active@[k], *config, now),
            forall|k: int| old(self).ghosts@.len() <= k < final(self).ghosts@.len() ==> started_ghost(#[trigger] final(self).ghosts@[k], *config, now),
    {
        let ghost old_active = self.active@;
        let ghost old_ghosts = self.ghosts@;
        let ghost all_events = events@;
        let total = events.len();
        let mut events = events;
        let mut done: usize = 0;
        while events.len() > 0
            invariant
                done + events@.len() == all_events.len(),
                all_events.len() == total,
                events@ == all_events.skip(done as int),
                active_keys(self.active@) == active_keys(old_active) + events_active_keys(all_events.take(done as int), *config),
                ghost_entries(self.ghosts@) == ghost_entries(old_ghosts) + events_ghost_entries(all_events.take(done as int), *config),
                old_active.len() <= self.active@.len(),
                old_ghosts.len() <= self.ghosts@.len(),
                forall|k: int| 0 <= k < old_active.len() ==> #[trigger] self.active@[k] == old_active[k],
                forall|k: int| 0 <= k < old_ghosts.len() ==> #[trigger] self.ghosts@[k] == old_ghosts[k],
                forall|k: int| old_active.len() <= k < self.active@.len() ==> started_active(#[trigger] self.active@[k], *config, now),
                forall|k: int| old_ghosts.len() <= k < self.ghosts@.len() ==> started_ghost(#[trigger] self.ghosts@[k], *config, now),
            decreases events@.len(),
        {
            let event = events.remove(0);
            proof {
                assert(all_events.take(done + 1).drop_last() =~= all_events.take(done as int));
                assert(all_events.skip(done as int).remove(0) =~= all_events.skip(done + 1));
                assert(all_events[done as int] == event);
            }
            let ghost before_active = self.active@;
            let ghost before_ghosts = self.ghosts@;
            self.apply_event(event, config, now);
            proof {
                assert(active_keys(self.active@) =~= active_keys(before_active) + event_active_keys(event, *config));
                assert(ghost_entries(self.ghosts@) =~= ghost_entries(before_ghosts) + event_ghost_entries(event, *config));
            }
            done = done + 1;
        }
        proof {
            assert(all_events.take(done as int) =~= all_events);
        }
    }

    fn apply_event(&mut self, event: ListAnimationEvent<R>, config: &ListAnimation<A>, now: I)
        ensures
            old(self).active@.len() <= final(self).active@.len(),
            old(self).ghosts@.len() <= final(self).ghosts@.len(),
            active_keys(final(self).active@) == active_keys(old(self).active@) + event_active_keys(event, *config),
            ghost_entries(final(self).ghosts@) == ghost_entries(old(self).ghosts@) + event_ghost_entries(event, *config),
            forall|k: int| 0 <= k < old(self).active@.len() ==> #[trigger] final(self).active@[k] == old(self).active@[k],
            forall|k: int| 0 <= k < old(self).ghosts@.len() ==> #[trigger] final(self).ghosts@[k] == old(self).ghosts@[k],
            forall|k: int| old(self).active@.len() <= k < final(self).active@.len() ==> started_active(#[trigger] final(self).active@[k], *config, now),
            forall|k: int| old(self).ghosts@.len() <= k < final(self).ghosts@.len() ==> started_ghost(#[trigger] final(self).ghosts@[k], *config, now),
    {
        let ghost old_active = self.active@;
        let ghost old_ghosts = self.ghosts@;
        match event {
            ListAnimationEvent::Inserted { range } => {
                match &config.on_insert {
                    Some(anim) => {
                        let ghost keys = inserted_keys(range);
                        let mut ix = range.start;
                        while ix < range.end
                            invariant
                                range.start <= ix,
                                range.start < range.end ==> ix <= range.end,
                                range.start >= range.end ==> ix == range.start,
                                config.on_insert == Some(*anim),
                                self.ghosts@ == old_ghosts,
                                active_keys(self.active@) == active_keys(old_active) + keys.take(ix - range.start),
                                keys == inserted_keys(range),
                                old_active.len() <= self.active@.len(),
                                forall|k: int| 0 <= k < old_active.len() ==> #[trigger] self.active@[k] == old_active[k],
                                forall|k: int| old_active.len() <= k < self.active@.len() ==> started_active(#[trigger] self.active@[k], *config, now),
                            decreases range.end - ix,
                        {
                            let ghost before = self.active@;
                            self.active.push(ActiveItemAnimation {
                                kind: AnimationKind::Insert,
                                start: now,
                                animation: anim.clone(),
                                from_index: ix,
                                to_index: ix,
                            });
                            proof {
                                assert(keys.take(ix + 1 - range.start) =~= keys.take(ix - range.start).push(
                                    (AnimationKind::Insert, ix, ix),
                                ));
                                assert(active_keys(self.active@) =~= active_keys(before).push(
                                    (AnimationKind::Insert, ix, ix),
                                ));
                            }
                            ix = ix + 1;
                        }
                        proof {
                            assert(keys.take(ix - range.start) =~= keys);
                        }
                    },
                    None => {
                        proof {
                            assert(active_keys(self.active@) =~= active_keys(old_active) + Seq::empty());
                        }
                    },
                }
                proof {
                    assert(ghost_entries(self.ghosts@) =~= ghost_entries(old_ghosts) + Seq::empty());
                }
            },
            ListAnimationEvent::Removed { removals } => {
                match &config.on_remove {
                    Some(anim) => {
                        let ghost all = removals@;
                        let ghost entries = all.map_values(|r: RemovedItem<R>| (r.index, r.render));
                        let total = removals.len();
                        let mut removals = removals;
                        let mut done: usize = 0;
                        while removals.len() > 0
                            invariant
                                done + removals@.len() == all.len(),
                                all.len() == total,
                                removals@ == all.skip(done as int),
                                entries == all.map_values(|r: RemovedItem<R>| (r.index, r.render)),
                                config.on_remove == Some(*anim),
                                self.active@ == old_active,
                                ghost_entries(self.ghosts@) == ghost_entries(old_ghosts) + entries.take(done as int),
                                old_ghosts.len() <= self.ghosts@.len(),
                                forall|k: int| 0 <= k < old_ghosts.len() ==> #[trigger] self.ghosts@[k] == old_ghosts[k],
                                forall|k: int| old_ghosts.len() <= k < self.ghosts@.len() ==> started_ghost(#[trigger] self.ghosts@[k], *config, now),
                            decreases removals@.len(),
                        {
                            let removal = removals.remove(0);
                            proof {
                                assert(all.skip(done as int).remove(0) =~= all.skip(done + 1));
                                assert(all[done as int] == removal);
                                assert(entries.take(done + 1) =~= entries.take(done as int).push(
                                    (removal.index, removal.render),
                                ));
                            }
                            let ghost before = self.ghosts@;
                            self.ghosts.push(GhostItem {
                                original_index: removal.index,
                                start: now,
                                animation: anim.clone(),
                                render: removal.render,
                            });
                            proof {
                                assert(ghost_entries(self.ghosts@) =~= ghost_entries(before).push(
                                    (removal.index, removal.render),
                                ));
                            }
                            done = done + 1;
                        }
                        proof {
                            assert(entries.take(done as int) =~= entries);
                        }
                    },
                    None => {
                        proof {
                            assert(ghost_entries(self.ghosts@) =~= ghost_entries(old_ghosts) + Seq::empty());
                        }
                    },
                }
                proof {
                    assert(active_keys(self.active@) =~= active_keys(old_active) + Seq::empty());
                }
            },
            ListAnimationEvent::Moved { moves } => {
                match &config.on_move {
                    Some(anim) => {
                        let ghost keys = moved_keys(moves@);
                        let mut j: usize = 0;
                        while j < moves.len()
                            invariant
                                j <= moves@.len(),
                                keys == moved_keys(moves@),
                                config.on_move == Some(*anim),
                                self.ghosts@ == old_ghosts,
                                active_keys(self.active@) == active_keys(old_active) + keys.take(j as int),
                                old_active.len() <= self.active@.len(),
                                forall|k: int| 0 <= k < old_active.len() ==> #[trigger] self.active@[k] == old_active[k],
                                forall|k: int| old_active.len() <= k < self.active@.len() ==> started_active(#[trigger] self.active@[k], *config, now),
                            decreases moves@.len() - j,
                        {
                            let (from, to) = moves[j];
                            let ghost before = self.active@;
                            self.active.push(ActiveItemAnimation {
                                kind: AnimationKind::Move,
                                start: now,
                                animation: anim.clone(),
                                from_index: from,
                                to_index: to,
                            });
                            proof {
                                assert(keys.take(j + 1) =~= keys.take(j as int).push((AnimationKind::Move, from, to)));
                                assert(active_keys(self.active@) =~= active_keys(before).push(
                                    (AnimationKind::Move, from, to),
                                ));
                            }
                            j = j + 1;
                        }
                        proof {
                            assert(keys.take(j as int) =~= keys);
                        }
                    },
                    None => {
                        proof {
                            assert(active_keys(self.active@) =~= active_keys(old_active) + Seq::empty());
                        }
                    },
                }
                proof {
                    assert(ghost_entries(self.ghosts@) =~= ghost_entries(old_ghosts) + Seq::empty());
                }
            },
        }
    }
}

} // verus!
