use vstd::prelude::*;

use crate::ctx::EventCtx;
use crate::token::TimerToken;

verus! {

/// Message type for components that never emit a message: it has no values,
/// so callers statically know no message will ever be produced.
pub enum Never {
    Unreachable(core::convert::Infallible),
}

/// One input signal delivered to the component tree during a dispatch tick.
#[derive(Clone, Copy, PartialEq, Eq, Structural, Debug)]
pub enum Event {
    /// A previously requested timer fired. Delivery spends the token; another
    /// timer has to be requested to receive a further event.
    Timer(TimerToken),
    /// Internally synthesized signal telling every `Child` wrapper in a
    /// sub-tree to schedule itself for painting.
    RequestPaint,
}

/// The capability of a UI tree node: consume one event (possibly emitting a
/// message for the parent to interpret) and render the current state.
///
/// `event` may call back into the context to request a later repaint or a
/// timer, but clearing the aggregate repaint flag is reserved to the host at
/// tick boundaries: an implementation must never erase a request that an
/// earlier sibling already placed in the context.
///
/// `paint` is expected to be idempotent: painting an unchanged state redraws
/// the same pixels.
pub trait Component {
    type Msg;

    fn event(&mut self, ctx: &mut EventCtx, event: Event) -> (msg: Option<Self::Msg>)
        ensures
            old(ctx).spec_paint_requested() ==> final(ctx).spec_paint_requested(),
    ;

    fn paint(&mut self);
}

/// Wraps an inner component and keeps a dirty flag for it, so that after a
/// dispatch only the nodes whose subtree actually asked for a repaint are
/// painted. Any mutation of the inner component has to happen under the
/// save/restore discipline of `mutate`: the subtree's own repaint
/// contribution is measured in isolation, and the contribution of siblings
/// evaluated earlier in the same parent scope is preserved.
pub struct Child<T> {
    component: T,
    marked_for_paint: bool,
}

impl<T> Child<T> {
    pub closed spec fn spec_inner(&self) -> T {
        self.component
    }

    /// Whether this wrapper owes a repaint.
    pub closed spec fn is_marked(&self) -> bool {
        self.marked_for_paint
    }

    /// A fresh wrapper is dirty: the first tick always paints.
    pub fn new(component: T) -> (r: Self)
        ensures
            r.is_marked(),
            r.spec_inner() == component,
    {
        Self { component, marked_for_paint: true }
    }

    pub fn inner(&self) -> (r: &T)
        ensures
            r == self.spec_inner(),
    {
        &self.component
    }

    pub fn into_inner(self) -> (r: T)
        ensures
            r == self.spec_inner(),
    {
        self.component
    }

    /// Entry half of the save/restore discipline: remember the aggregate
    /// flag and reset it, so that the scope about to run is measured in
    /// isolation.
    fn save_and_reset(ctx: &mut EventCtx) -> (prev: bool)
        ensures
            prev == old(ctx).spec_paint_requested(),
            !final(ctx).spec_paint_requested(),
            final(ctx).spec_timers() == old(ctx).spec_timers(),
            final(ctx).spec_next_token() == old(ctx).spec_next_token(),
    {
        let prev = ctx.paint_requested();
        ctx.clear_paint_requests();
        prev
    }

    /// Exit half of the save/restore discipline. The flag now holds only the
    /// scope's own contribution: absorb it into the dirty mark, and leave the
    /// context flag at the or of the earlier siblings' flag and that
    /// contribution, so it propagates upwards exactly when something under
    /// this parent scope asked to be painted.
    fn merge_scope(&mut self, ctx: &mut EventCtx, prev: bool)
        ensures
            final(self).is_marked() == (old(self).is_marked()
                || old(ctx).spec_paint_requested()),
            final(self).spec_inner() == old(self).spec_inner(),
            final(ctx).spec_paint_requested() == (prev || old(ctx).spec_paint_requested()),
            final(ctx).spec_timers() == old(ctx).spec_timers(),
            final(ctx).spec_next_token() == old(ctx).spec_next_token(),
    {
        if ctx.paint_requested() {
            self.marked_for_paint = true;
        } else if prev {
            ctx.request_paint();
        }
    }

    /// Run `component_func` against the inner component under the
    /// save/restore discipline.
    ///
    /// The closure is called once, on the inner component, with the context
    /// flag reset so its scope is measured in isolation (timers and counter
    /// are handed over untouched). Whatever flag state the closure leaves is
    /// its contribution: if it requested a repaint this wrapper is marked and
    /// the flag is left set for the parent, and otherwise both the mark and
    /// the flag are exactly as before the call.
    pub fn mutate<F, U>(&mut self, ctx: &mut EventCtx, component_func: F) -> (result: U) where
        F: FnOnce(&mut EventCtx, &mut T) -> U,

        requires
            forall|a: &mut EventCtx, b: &mut T| call_requires(component_func, (a, b)),
        ensures
            exists|a: &mut EventCtx, b: &mut T|
                {
                    &&& #[trigger] call_ensures(component_func, (a, b), result)
                    &&& !mut_ref_current(a).spec_paint_requested()
                    &&& mut_ref_current(a).spec_timers() == old(ctx).spec_timers()
                    &&& mut_ref_current(a).spec_next_token() == old(ctx).spec_next_token()
                    &&& mut_ref_current(b) == old(self).spec_inner()
                    &&& final(self).spec_inner() == mut_ref_future(b)
                    &&& final(ctx).spec_timers() == mut_ref_future(a).spec_timers()
                    &&& final(ctx).spec_next_token() == mut_ref_future(a).spec_next_token()
                    &&& final(self).is_marked() == (old(self).is_marked()
                        || mut_ref_future(a).spec_paint_requested())
                    &&& final(ctx).spec_paint_requested() == (old(ctx).spec_paint_requested()
                        || mut_ref_future(a).spec_paint_requested())
                },
            (final(ctx).spec_paint_requested() && final(self).is_marked()) || (
            final(ctx).spec_paint_requested() == old(ctx).spec_paint_requested()
                && final(self).is_marked() == old(self).is_marked()),
            old(ctx).spec_paint_requested() ==> final(ctx).spec_paint_requested(),
            old(self).is_marked() ==> final(self).is_marked(),
    {
        let prev_requested = Self::save_and_reset(ctx);
        let result = component_func(ctx, &mut self.component);
        self.merge_scope(ctx, prev_requested);
        result
    }
}

impl<T: Component> Component for Child<T> {
    type Msg = T::Msg;

    /// Dispatch one event into the wrapped subtree under the save/restore
    /// discipline: the inner handler is called once, on the inner component
    /// and the given event, with the context flag reset so the subtree's own
    /// contribution decides this wrapper's mark. A `RequestPaint` event is
    /// absorbed here — the wrapper is marked and the flag raised — and still
    /// forwarded inward, so every wrapper below observes the synthetic
    /// signal no matter what the inner component does with it.
    fn event(&mut self, ctx: &mut EventCtx, event: Event) -> (msg: Option<T::Msg>)
        ensures
            exists|b: &mut T, a: &mut EventCtx|
                {
                    &&& #[trigger] call_ensures(<T as Component>::event, (b, a, event), msg)
                    &&& mut_ref_current(b) == old(self).spec_inner()
                    &&& mut_ref_current(a).spec_paint_requested() == (event is RequestPaint)
                    &&& mut_ref_current(a).spec_timers() == old(ctx).spec_timers()
                    &&& mut_ref_current(a).spec_next_token() == old(ctx).spec_next_token()
                    &&& final(self).spec_inner() == mut_ref_future(b)
                    &&& final(ctx).spec_timers() == mut_ref_future(a).spec_timers()
                    &&& final(ctx).spec_next_token() == mut_ref_future(a).spec_next_token()
                    &&& final(self).is_marked() == (old(self).is_marked()
                        || mut_ref_future(a).spec_paint_requested())
                    &&& final(ctx).spec_paint_requested() == (old(ctx).spec_paint_requested()
                        || mut_ref_future(a).spec_paint_requested())
                },
            (final(ctx).spec_paint_requested() && final(self).is_marked()) || (
            final(ctx).spec_paint_requested() == old(ctx).spec_paint_requested()
                && final(self).is_marked() == old(self).is_marked()),
            old(self).is_marked() ==> final(self).is_marked(),
            event is RequestPaint ==> final(self).is_marked()
                && final(ctx).spec_paint_requested(),
    {
        let prev_requested = Self::save_and_reset(ctx);
        if let Event::RequestPaint = event {
            ctx.request_paint();
        }
        let inner_event = <T as Component>::event;
        let msg = inner_event(&mut self.component, ctx, event);
        self.merge_scope(ctx, prev_requested);
        msg
    }

    /// Paint the inner component exactly when a repaint is owed, and clear
    /// the debt: on a marked wrapper the inner paint runs once, on the inner
    /// component, which changes only as that call changes it. A wrapper that
    /// is not marked does nothing at all.
    fn paint(&mut self)
        ensures
            !final(self).is_marked(),
            !old(self).is_marked() ==> *final(self) == *old(self),
            old(self).is_marked() ==> exists|b: &mut T|
                {
                    &&& #[trigger] call_ensures(<T as Component>::paint, (b,), ())
                    &&& mut_ref_current(b) == old(self).spec_inner()
                    &&& final(self).spec_inner() == mut_ref_future(b)
                },
    {
        if self.marked_for_paint {
            self.marked_for_paint = false;
            let inner_paint = <T as Component>::paint;
            inner_paint(&mut self.component);
        }
    }
}

/// Convenience for wrapping a component in a fresh (dirty) `Child`.
pub trait ComponentExt: Sized {
    fn into_child(self) -> (r: Child<Self>)
        ensures
            r.is_marked(),
            r.spec_inner() == self,
    ;
}

impl<T: Component> ComponentExt for T {
    fn into_child(self) -> (r: Child<Self>) {
        Child::new(self)
    }
}

/// The aggregate repaint flag a parent scope ends with, given the flag it
/// started with and each child's own contribution, evaluated left to right:
/// by the save/restore discipline each child either merges `true` into the
/// flag or leaves it exactly as it was.
pub open spec fn scope_flag_after(initial: bool, contribs: Seq<bool>) -> bool
    decreases contribs.len(),
{
    if contribs.len() == 0 {
        initial
    } else {
        scope_flag_after(initial, contribs.drop_last()) || contribs.last()
    }
}

/// Aggregation correctness: after a sequence of sibling evaluations the
/// context flag is the disjunction of the initial flag with every sibling's
/// individual contribution.
pub proof fn lemma_scope_flag_aggregates(initial: bool, contribs: Seq<bool>)
    ensures
        scope_flag_after(initial, contribs) == (initial || contribs.contains(true)),
    decreases contribs.len(),
{
    if contribs.len() == 0 {
        assert(!contribs.contains(true));
    } else {
        let butlast = contribs.drop_last();
        lemma_scope_flag_aggregates(initial, butlast);
        if contribs.last() {
            assert(contribs[contribs.len() - 1]);
            assert(contribs.contains(true));
        }
        if butlast.contains(true) {
            let i = choose|i: int| 0 <= i < butlast.len() && butlast[i];
            assert(contribs[i]);
            assert(contribs.contains(true));
        }
        if contribs.contains(true) && !contribs.last() {
            let i = choose|i: int| 0 <= i < contribs.len() && contribs[i];
            assert(butlast[i]);
            assert(butlast.contains(true));
        }
    }
}

/// Order independence: two evaluation orders of the same set of sibling
/// contributions end with the same aggregate flag.
pub proof fn lemma_scope_flag_order_independent(initial: bool, a: Seq<bool>, b: Seq<bool>)
    requires
        a.to_multiset() == b.to_multiset(),
    ensures
        scope_flag_after(initial, a) == scope_flag_after(initial, b),
{
    lemma_scope_flag_aggregates(initial, a);
    lemma_scope_flag_aggregates(initial, b);
    a.to_multiset_ensures();
    b.to_multiset_ensures();
    assert(a.to_multiset().count(true) == b.to_multiset().count(true));
    assert(a.contains(true) <==> a.to_multiset().count(true) > 0);
    assert(b.contains(true) <==> b.to_multiset().count(true) > 0);
}

} // verus!
