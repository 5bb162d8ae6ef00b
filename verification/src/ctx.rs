use vstd::prelude::*;

use crate::time::Duration;
use crate::token::TimerToken;

verus! {

/// Maximum number of timer requests kept in one event tick.
pub const MAX_TIMERS: usize = 4;

#[verifier::external_type_specification]
#[verifier::external_body]
#[verifier::reject_recursive_types(T)]
pub struct ExHeaplessVec<T, const N: usize>(heapless::Vec<T, N>);

/// The entries currently held by the fixed-capacity timer vector, in
/// insertion order (oldest first). Each entry is a raw token value paired
/// with a delay in milliseconds.
pub uninterp spec fn timer_entries(v: heapless::Vec<(usize, u32), 4>) -> Seq<(usize, u32)>;

/// Relies on heapless::Vec::new: a freshly constructed vector is empty.
#[verifier::external_body]
fn timer_vec_new() -> (r: heapless::Vec<(usize, u32), 4>)
    ensures
        timer_entries(r) == Seq::<(usize, u32)>::empty(),
{
    heapless::Vec::new()
}

/// Relies on heapless::Vec::push: appends the item at the back when the
/// vector holds fewer than its capacity of items, and returns the item back
/// (an error, converted here to `false`) when the vector is full.
#[verifier::external_body]
fn timer_vec_push(v: &mut heapless::Vec<(usize, u32), 4>, entry: (usize, u32)) -> (accepted: bool)
    ensures
        timer_entries(*old(v)).len() < 4 ==> accepted
            && timer_entries(*final(v)) == timer_entries(*old(v)).push(entry),
        timer_entries(*old(v)).len() >= 4 ==> !accepted
            && timer_entries(*final(v)) == timer_entries(*old(v)),
{
    v.push(entry).is_ok()
}

/// Relies on heapless::Vec::pop: removes and returns the last item, or
/// returns `None` when the vector is empty.
#[verifier::external_body]
fn timer_vec_pop(v: &mut heapless::Vec<(usize, u32), 4>) -> (r: Option<(usize, u32)>)
    ensures
        timer_entries(*old(v)).len() == 0 ==> r is None
            && timer_entries(*final(v)) == timer_entries(*old(v)),
        timer_entries(*old(v)).len() > 0 ==> r == Some(timer_entries(*old(v)).last())
            && timer_entries(*final(v)) == timer_entries(*old(v)).drop_last(),
{
    v.pop()
}

/// Per-tick mutable context handed down the component tree during one event
/// dispatch: the aggregate repaint flag, a bounded queue of pending timer
/// requests, and the monotonically increasing token counter.
pub struct EventCtx {
    timers: heapless::Vec<(usize, u32), 4>,
    next_token: usize,
    paint_requested: bool,
}

impl EventCtx {
    /// Whether some component asked for a repaint in the current scope.
    pub closed spec fn spec_paint_requested(&self) -> bool {
        self.paint_requested
    }

    /// The pending timer requests, oldest first: raw token value paired with
    /// the requested delay in milliseconds.
    pub closed spec fn spec_timers(&self) -> Seq<(usize, u32)> {
        timer_entries(self.timers)
    }

    /// The raw value the next issued token will carry.
    pub closed spec fn spec_next_token(&self) -> usize {
        self.next_token
    }

    /// Well-formedness: the queue never exceeds its capacity, the counter
    /// starts past the reserved sentinel 0, every queued token was issued
    /// earlier by this counter (valid and below the counter), and the queued
    /// tokens increase strictly with their position — tokens are never
    /// reused, so no two entries share one.
    pub open spec fn wf(&self) -> bool {
        &&& self.spec_timers().len() <= MAX_TIMERS
        &&& 1 <= self.spec_next_token()
        &&& forall|i: int|
            0 <= i < self.spec_timers().len() ==> 1 <= #[trigger] self.spec_timers()[i].0
                < self.spec_next_token()
        &&& forall|i: int, j: int|
            #![trigger self.spec_timers()[i], self.spec_timers()[j]]
            0 <= i < j < self.spec_timers().len() ==> self.spec_timers()[i].0
                < self.spec_timers()[j].0
    }

    pub fn new() -> (r: Self)
        ensures
            r.wf(),
            !r.spec_paint_requested(),
            r.spec_timers() == Seq::<(usize, u32)>::empty(),
            r.spec_next_token() == 1,
    {
        Self { timers: timer_vec_new(), next_token: 1, paint_requested: false }
    }

    /// Whether a repaint has been requested in the current scope.
    pub fn paint_requested(&self) -> (r: bool)
        ensures
            r == self.spec_paint_requested(),
    {
        self.paint_requested
    }

    /// Record that the component currently being evaluated wants a repaint.
    pub fn request_paint(&mut self)
        ensures
            final(self).spec_paint_requested(),
            final(self).spec_timers() == old(self).spec_timers(),
            final(self).spec_next_token() == old(self).spec_next_token(),
    {
        self.paint_requested = true;
    }

    /// Host-invoked at tick boundaries: reset the aggregate flag.
    pub fn clear_paint_requests(&mut self)
        ensures
            !final(self).spec_paint_requested(),
            final(self).spec_timers() == old(self).spec_timers(),
            final(self).spec_next_token() == old(self).spec_next_token(),
    {
        self.paint_requested = false;
    }

    /// Request a timer event to be delivered after `deadline` elapses.
    ///
    /// A fresh, valid token is always issued and the counter always advances.
    /// The request itself is queued only while the queue is below capacity;
    /// at capacity it is dropped silently, and its token can then never be
    /// yielded by `pop_timer`.
    pub fn request_timer(&mut self, deadline: Duration) -> (token: TimerToken)
        requires
            old(self).wf(),
            old(self).spec_next_token() < usize::MAX,
        ensures
            final(self).wf(),
            token.spec_raw() == old(self).spec_next_token(),
            token.is_valid(),
            final(self).spec_next_token() == old(self).spec_next_token() + 1,
            final(self).spec_paint_requested() == old(self).spec_paint_requested(),
            old(self).spec_timers().len() < MAX_TIMERS ==> final(self).spec_timers()
                == old(self).spec_timers().push((token.spec_raw(), deadline.spec_millis())),
            old(self).spec_timers().len() >= MAX_TIMERS ==> final(self).spec_timers()
                == old(self).spec_timers() && (forall|i: int|
                0 <= i < final(self).spec_timers().len()
                    ==> #[trigger] final(self).spec_timers()[i].0 != token.spec_raw()),
    {
        let token = self.next_timer_token();
        let _ = timer_vec_push(&mut self.timers, (token.into_raw(), deadline.to_millis()));
        token
    }

    /// Remove and return one pending timer request, most recent first.
    pub fn pop_timer(&mut self) -> (r: Option<(TimerToken, Duration)>)
        ensures
            old(self).wf() ==> final(self).wf(),
            final(self).spec_paint_requested() == old(self).spec_paint_requested(),
            final(self).spec_next_token() == old(self).spec_next_token(),
            old(self).spec_timers().len() == 0 ==> r is None && final(self).spec_timers()
                == old(self).spec_timers(),
            old(self).spec_timers().len() > 0 ==> {
                let entry = r->Some_0;
                &&& r is Some
                &&& entry.0.spec_raw() == old(self).spec_timers().last().0
                &&& entry.1.spec_millis() == old(self).spec_timers().last().1
                &&& final(self).spec_timers() == old(self).spec_timers().drop_last()
            },
    {
        match timer_vec_pop(&mut self.timers) {
            Some((raw, millis)) => Some((TimerToken::from_raw(raw), Duration::from_millis(millis))),
            None => None,
        }
    }

    /// Allocate the next token: the counter value, then advance the counter.
    fn next_timer_token(&mut self) -> (token: TimerToken)
        requires
            old(self).spec_next_token() < usize::MAX,
        ensures
            token.spec_raw() == old(self).spec_next_token(),
            final(self).spec_next_token() == old(self).spec_next_token() + 1,
            final(self).spec_timers() == old(self).spec_timers(),
            final(self).spec_paint_requested() == old(self).spec_paint_requested(),
    {
        let token = TimerToken::from_raw(self.next_token);
        self.next_token += 1;
        token
    }
}

/// The raw token values a run of consecutive `request_timer` calls hands
/// out when the counter stands at `c0` as the run begins: the i-th call
/// returns `c0 + i`.
pub open spec fn tokens_issued(c0: usize, n: nat) -> Seq<usize> {
    Seq::new(n, |i: int| (c0 + i) as usize)
}

/// Token monotonicity: within one run the issued tokens are strictly
/// increasing, and none is the reserved invalid value 0.
pub proof fn lemma_tokens_issued_monotonic(c0: usize, n: nat)
    requires
        1 <= c0,
        c0 + n <= usize::MAX + 1,
    ensures
        forall|i: int, j: int|
            0 <= i < j < n ==> #[trigger] tokens_issued(c0, n)[i]
                < #[trigger] tokens_issued(c0, n)[j],
        forall|i: int| 0 <= i < n ==> #[trigger] tokens_issued(c0, n)[i] != 0,
{
}

} // verus!
