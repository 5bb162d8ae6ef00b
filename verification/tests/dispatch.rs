use ui_dispatch::component::{Child, Component, ComponentExt, Event, Never};
use ui_dispatch::ctx::{EventCtx, MAX_TIMERS};
use ui_dispatch::time::Duration;
use ui_dispatch::token::TimerToken;

/// A leaf component that counts what happens to it and can be configured to
/// request a repaint whenever it receives an event.
struct Leaf {
    request_on_event: bool,
    paints: u32,
    events_seen: u32,
    saw_request_paint: bool,
}

impl Leaf {
    fn new(request_on_event: bool) -> Self {
        Leaf { request_on_event, paints: 0, events_seen: 0, saw_request_paint: false }
    }
}

impl Component for Leaf {
    type Msg = Never;

    fn event(&mut self, ctx: &mut EventCtx, event: Event) -> Option<Never> {
        self.events_seen += 1;
        if let Event::RequestPaint = event {
            self.saw_request_paint = true;
        }
        if self.request_on_event {
            ctx.request_paint();
        }
        None
    }

    fn paint(&mut self) {
        self.paints += 1;
    }
}

/// A component holding one wrapped child, to exercise nesting.
struct Branch {
    child: Child<Leaf>,
}

impl Component for Branch {
    type Msg = Never;

    fn event(&mut self, ctx: &mut EventCtx, event: Event) -> Option<Never> {
        self.child.event(ctx, event)
    }

    fn paint(&mut self) {
        self.child.paint();
    }
}

fn any_event() -> Event {
    Event::Timer(TimerToken::from_raw(9))
}

#[test]
fn initial_paint_happens_once() {
    let mut child = Child::new(Leaf::new(false));
    // A fresh wrapper is dirty: the first paint reaches the inner component.
    child.paint();
    assert_eq!(child.inner().paints, 1);
    // With no intervening event, a second paint does nothing.
    child.paint();
    assert_eq!(child.inner().paints, 1);
}

#[test]
fn event_requesting_repaint_marks_wrapper() {
    let mut child = Child::new(Leaf::new(true));
    child.paint();
    assert_eq!(child.inner().paints, 1);

    let mut ctx = EventCtx::new();
    let msg = child.event(&mut ctx, any_event());
    assert!(msg.is_none());
    assert!(ctx.paint_requested());
    child.paint();
    assert_eq!(child.inner().paints, 2);
}

#[test]
fn event_without_request_leaves_wrapper_clean() {
    let mut child = Child::new(Leaf::new(false));
    child.paint();

    let mut ctx = EventCtx::new();
    child.event(&mut ctx, any_event());
    assert!(!ctx.paint_requested());
    assert_eq!(child.inner().events_seen, 1);
    child.paint();
    assert_eq!(child.inner().paints, 1);
}

#[test]
fn request_paint_event_is_universal() {
    // A nested tree: Child<Branch> { Child<Leaf> }, where the leaf itself
    // ignores events entirely (it requests nothing).
    let mut root = Child::new(Branch { child: Child::new(Leaf::new(false)) });
    root.paint();
    assert_eq!(root.inner().child.inner().paints, 1);

    let mut ctx = EventCtx::new();
    root.event(&mut ctx, Event::RequestPaint);
    // The synthetic event reaches every wrapper and the leaf itself.
    assert!(ctx.paint_requested());
    assert!(root.inner().child.inner().saw_request_paint);
    // Both wrappers were marked: painting reaches the leaf again.
    root.paint();
    assert_eq!(root.inner().child.inner().paints, 2);
}

#[test]
fn sibling_aggregation_order_a_then_b() {
    let mut a = Child::new(Leaf::new(true));
    let mut b = Child::new(Leaf::new(false));
    a.paint();
    b.paint();

    let mut ctx = EventCtx::new();
    a.event(&mut ctx, any_event());
    b.event(&mut ctx, any_event());
    // The aggregate flag is the or of the two contributions; the later,
    // clean sibling must not erase the earlier request.
    assert!(ctx.paint_requested());
    // Each wrapper's own flag reflects only its own contribution.
    a.paint();
    b.paint();
    assert_eq!(a.inner().paints, 2);
    assert_eq!(b.inner().paints, 1);
}

#[test]
fn sibling_aggregation_order_b_then_a() {
    let mut a = Child::new(Leaf::new(true));
    let mut b = Child::new(Leaf::new(false));
    a.paint();
    b.paint();

    let mut ctx = EventCtx::new();
    b.event(&mut ctx, any_event());
    a.event(&mut ctx, any_event());
    assert!(ctx.paint_requested());
    a.paint();
    b.paint();
    assert_eq!(a.inner().paints, 2);
    assert_eq!(b.inner().paints, 1);
}

#[test]
fn mutate_preserves_earlier_sibling_request() {
    let mut clean = Child::new(Leaf::new(false));
    clean.paint();

    let mut ctx = EventCtx::new();
    // An earlier sibling already requested a repaint in this scope.
    ctx.request_paint();
    // A later sibling that contributes nothing must leave that request.
    clean.mutate(&mut ctx, |_ctx, _c| ());
    assert!(ctx.paint_requested());
    clean.paint();
    assert_eq!(clean.inner().paints, 1);
}

#[test]
fn mutate_returns_closure_result_and_marks() {
    let mut child = Child::new(Leaf::new(false));
    child.paint();

    let mut ctx = EventCtx::new();
    let sum = child.mutate(&mut ctx, |ctx, _c| {
        ctx.request_paint();
        40 + 2
    });
    assert_eq!(sum, 42);
    assert!(ctx.paint_requested());
    child.paint();
    assert_eq!(child.inner().paints, 2);
}

#[test]
fn clear_paint_requests_resets_flag() {
    let mut ctx = EventCtx::new();
    assert!(!ctx.paint_requested());
    ctx.request_paint();
    assert!(ctx.paint_requested());
    ctx.request_paint();
    assert!(ctx.paint_requested());
    ctx.clear_paint_requests();
    assert!(!ctx.paint_requested());
}

#[test]
fn timer_tokens_and_stack_order() {
    let mut ctx = EventCtx::new();
    let t1 = ctx.request_timer(Duration::from_millis(100));
    let t2 = ctx.request_timer(Duration::from_millis(200));
    assert_eq!(t1.into_raw(), 1);
    assert_eq!(t2.into_raw(), 2);

    // Most recent request comes out first.
    let (tok, delay) = ctx.pop_timer().unwrap();
    assert_eq!(tok, t2);
    assert_eq!(delay.to_millis(), 200);
    let (tok, delay) = ctx.pop_timer().unwrap();
    assert_eq!(tok, t1);
    assert_eq!(delay.to_millis(), 100);
    assert!(ctx.pop_timer().is_none());
}

#[test]
fn timer_tokens_increase_and_are_valid() {
    let mut ctx = EventCtx::new();
    let mut prev: usize = TimerToken::invalid().into_raw();
    assert_eq!(prev, 0);
    for i in 0..(MAX_TIMERS + 3) {
        let delay = Duration::from_millis(i as u32);
        let tok = ctx.request_timer(delay).into_raw();
        assert_ne!(tok, 0);
        assert!(tok > prev);
        prev = tok;
    }
}

#[test]
fn queue_overflow_drops_request_but_issues_token() {
    assert_eq!(MAX_TIMERS, 4);
    let mut ctx = EventCtx::new();
    let mut tokens = Vec::new();
    for i in 0..(MAX_TIMERS + 1) {
        tokens.push(ctx.request_timer(Duration::from_millis(10 * (i as u32 + 1))));
    }
    // Five valid, strictly increasing tokens were issued.
    assert_eq!(tokens.len(), 5);
    for (i, tok) in tokens.iter().enumerate() {
        assert_eq!(tok.into_raw(), i + 1);
    }
    // Only the first four requests are retrievable, in stack order, and the
    // dropped request's token is never yielded.
    let mut popped = Vec::new();
    while let Some((tok, delay)) = ctx.pop_timer() {
        popped.push((tok.into_raw(), delay.to_millis()));
    }
    assert_eq!(popped, vec![(4, 40), (3, 30), (2, 20), (1, 10)]);
}

#[test]
fn fresh_ctx_is_clean_and_empty() {
    let mut ctx = EventCtx::new();
    assert!(!ctx.paint_requested());
    assert!(ctx.pop_timer().is_none());
}

#[test]
fn token_round_trip_and_equality() {
    let t = TimerToken::from_raw(17);
    assert_eq!(t.into_raw(), 17);
    assert_eq!(t, TimerToken::from_raw(17));
    assert_ne!(t, TimerToken::from_raw(18));
    assert_ne!(t, TimerToken::invalid());
}

#[test]
fn duration_round_trip_and_equality() {
    let d = Duration::from_millis(250);
    assert_eq!(d.to_millis(), 250);
    assert_eq!(d, Duration::from_millis(250));
    assert_ne!(d, Duration::from_millis(251));
}

#[test]
fn into_child_starts_dirty() {
    let mut child = Leaf::new(false).into_child();
    assert_eq!(child.inner().paints, 0);
    child.paint();
    assert_eq!(child.inner().paints, 1);
}

#[test]
fn into_inner_returns_component() {
    let mut leaf = Leaf::new(false);
    leaf.events_seen = 7;
    let child = Child::new(leaf);
    let back = child.into_inner();
    assert_eq!(back.events_seen, 7);
}

#[test]
fn timer_event_is_forwarded_inward() {
    let mut child = Child::new(Leaf::new(false));
    let mut ctx = EventCtx::new();
    let tok = ctx.request_timer(Duration::from_millis(100));
    let delivered = ctx.pop_timer().unwrap().0;
    assert_eq!(delivered, tok);
    child.event(&mut ctx, Event::Timer(delivered));
    assert_eq!(child.inner().events_seen, 1);
    assert!(!child.inner().saw_request_paint);
}
