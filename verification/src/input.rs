//! The input pipeline's decisions and the main loop's state transition.
//!
//! A background producer decodes terminal events; the decisions it makes —
//! keep key presses, drop everything else — live in `filter_event`. Decoded
//! keys travel through a first-in-first-out `EventQueue`; the main loop
//! drains at most one per frame, without blocking, and applies the key
//! policy in `main_loop_step`. The loop itself (terminal polling, painting,
//! thread plumbing) runs outside the library and calls these functions.

use vstd::prelude::*;
use vstd::pervasive::VecAdditionalExecFns;

use crate::model::{EsenixContext, Window};

verus! {

/// A decoded key press, reduced to what the key policy distinguishes:
/// the terminate key, the attach key, and everything else (reserved for
/// future command dispatch).
#[derive(Clone, Copy, Debug, PartialEq, Eq)]
pub enum KeyPress {
    Escape,
    Tab,
    Other,
}

/// One decoded low-level terminal event, as the producer classifies it.
#[derive(Clone, Copy, Debug, PartialEq, Eq)]
pub enum InputEvent {
    Key(KeyPress),
    Resize,
    Other,
}

/// What the producer forwards to the main loop: a key press, or the signal
/// that the input stream has closed and no further keys will come.
#[derive(Clone, Copy, Debug, PartialEq, Eq)]
pub enum InputSignal {
    Key(KeyPress),
    Closed,
}

/// Whether the main loop keeps running after a step.
#[derive(Clone, Copy, Debug, PartialEq, Eq)]
pub enum LoopControl {
    Continue,
    Exit,
}

/// A reportable precondition violation while applying the key policy.
#[derive(Clone, Copy, Debug, PartialEq, Eq)]
pub enum StepError {
    /// The attach key arrived while the session has no window to attach.
    NoWindowToAttach,
}

impl StepError {
    /// A human-readable report of the violation.
    pub fn describe(&self) -> (r: &'static str)
        ensures
            r@ == "no window to attach"@,
    {
        match self {
            StepError::NoWindowToAttach => "no window to attach",
        }
    }
}

/// The producer's accept policy: key presses are forwarded, every other
/// event class is dropped.
pub fn filter_event(event: InputEvent) -> (r: Option<KeyPress>)
    ensures
        r == match event {
            InputEvent::Key(k) => Some(k),
            InputEvent::Resize => None::<KeyPress>,
            InputEvent::Other => None::<KeyPress>,
        },
{
    match event {
        InputEvent::Key(k) => Some(k),
        InputEvent::Resize => None,
        InputEvent::Other => None,
    }
}

/// What one drain returns and leaves behind: nothing from an empty queue,
/// else the oldest pending event, removed from the front.
pub open spec fn drain_spec(pending: Seq<KeyPress>) -> (Option<KeyPress>, Seq<KeyPress>) {
    if pending.len() == 0 {
        (None::<KeyPress>, pending)
    } else {
        (Some(pending[0]), pending.drop_first())
    }
}

/// A first-in-first-out queue of pending key events. The producer enqueues
/// at the back; the consumer drains from the front, so events are observed
/// exactly once and in the order produced.
pub struct EventQueue {
    events: Vec<KeyPress>,
}

impl View for EventQueue {
    type V = Seq<KeyPress>;

    /// The pending events, oldest first.
    closed spec fn view(&self) -> Seq<KeyPress> {
        self.events@
    }
}

impl EventQueue {
    /// An empty queue.
    pub fn new() -> (q: EventQueue)
        ensures
            q@ =~= Seq::<KeyPress>::empty(),
    {
        EventQueue { events: Vec::new() }
    }

    /// How many events are pending.
    pub fn len(&self) -> (n: usize)
        ensures
            n == self@.len(),
    {
        self.events.len()
    }

    /// Enqueue one produced event behind everything already pending.
    pub fn enqueue(&mut self, key: KeyPress)
        ensures
            final(self)@ == old(self)@.push(key),
    {
        self.events.push(key);
    }

    /// Drain at most one event, without blocking: `None` from an empty queue
    /// (a no-op), else the oldest pending event.
    pub fn try_drain(&mut self) -> (r: Option<KeyPress>)
        ensures
            r == drain_spec(old(self)@).0,
            final(self)@ == drain_spec(old(self)@).1,
    {
        if self.events.len() == 0 {
            None
        } else {
            let key = self.events.remove(0);
            proof {
                assert(self.events@ =~= old(self)@.drop_first());
            }
            Some(key)
        }
    }
}

/// The queue preserves production order: from a queue holding `pending`,
/// with `a` produced and enqueued before `b`, the successive drains return
/// everything already pending, then `a`, and only after `a` is consumed can
/// a drain return `b` — the consumer never observes `b` before `a`.
pub proof fn lemma_queue_preserves_order(pending: Seq<KeyPress>, a: KeyPress, b: KeyPress)
    ensures
        forall|k: int| 0 <= k < pending.len() ==> #[trigger] drain_spec(
            pending.push(a).push(b).skip(k),
        ).0 == Some(pending[k]),
        drain_spec(pending.push(a).push(b).skip(pending.len() as int)).0 == Some(a),
        drain_spec(pending.push(a).push(b).skip(pending.len() as int + 1)).0 == Some(b),
{
    let q = pending.push(a).push(b);
    assert forall|k: int| 0 <= k <= pending.len() + 1 implies #[trigger] drain_spec(q.skip(k)).0
        == Some(q[k]) by {
        assert(q.skip(k).len() > 0);
        assert(q.skip(k)[0] == q[k]);
    }
}

/// The windows after the attach command: the first window attached to the
/// first buffer, every other window untouched.
pub open spec fn attach_first(windows: Seq<Window>) -> Seq<Window> {
    windows.update(0, (Window { buffer_idx: Some(0usize) }))
}

/// How the attach command transforms the session: the windows are rewritten
/// with `attach_first`; buffers, mode and active-window pointer are kept.
pub open spec fn tab_applied(pre: EsenixContext, post: EsenixContext) -> bool {
    &&& post.windows@ == attach_first(pre.windows@)
    &&& post.buffers@ == pre.buffers@
    &&& post.mode == pre.mode
    &&& post.active_window_idx == pre.active_window_idx
}

/// The attach command is idempotent on the windows: attaching the first
/// window twice in a row yields exactly the windows of attaching it once.
pub proof fn lemma_attach_idempotent(windows: Seq<Window>)
    requires
        windows.len() > 0,
    ensures
        attach_first(attach_first(windows)) == attach_first(windows),
{
    assert(attach_first(attach_first(windows)) =~= attach_first(windows));
}

/// The attach command is idempotent on the whole session: if `b` is `a`
/// after one attach and `c` is `b` after another, then `c` is `b`.
pub proof fn lemma_tab_idempotent(a: EsenixContext, b: EsenixContext, c: EsenixContext)
    requires
        a.windows@.len() > 0,
        tab_applied(a, b),
        tab_applied(b, c),
    ensures
        c.windows@ == b.windows@,
        c.buffers@ == b.buffers@,
        c.mode == b.mode,
        c.active_window_idx == b.active_window_idx,
{
    lemma_attach_idempotent(a.windows@);
}

/// One step of the main loop, applied to at most one drained event.
///
/// An empty drain (`None`) is a no-op on the session; the terminate key and
/// a closed input stream exit the loop without touching the session; the
/// attach key attaches the first window to buffer index zero, or reports
/// `NoWindowToAttach` — without silently ignoring it — when the session has
/// no window; every other key is reserved and does nothing.
pub fn main_loop_step(ctx: &mut EsenixContext, event: Option<InputSignal>) -> (r: Result<
    LoopControl,
    StepError,
>)
    ensures
        match event {
            None => *final(ctx) == *old(ctx) && r == Ok::<LoopControl, StepError>(
                LoopControl::Continue,
            ),
            Some(InputSignal::Closed) => *final(ctx) == *old(ctx) && r == Ok::<
                LoopControl,
                StepError,
            >(LoopControl::Exit),
            Some(InputSignal::Key(k)) => match k {
                KeyPress::Escape => *final(ctx) == *old(ctx) && r == Ok::<LoopControl, StepError>(
                    LoopControl::Exit,
                ),
                KeyPress::Tab => {
                    if old(ctx).windows@.len() > 0 {
                        tab_applied(*old(ctx), *final(ctx)) && r == Ok::<LoopControl, StepError>(
                            LoopControl::Continue,
                        )
                    } else {
                        *final(ctx) == *old(ctx) && r == Err::<LoopControl, StepError>(
                            StepError::NoWindowToAttach,
                        )
                    }
                },
                KeyPress::Other => *final(ctx) == *old(ctx) && r == Ok::<LoopControl, StepError>(
                    LoopControl::Continue,
                ),
            },
        },
{
    match event {
        None => Ok(LoopControl::Continue),
        Some(InputSignal::Closed) => Ok(LoopControl::Exit),
        Some(InputSignal::Key(KeyPress::Escape)) => Ok(LoopControl::Exit),
        Some(InputSignal::Key(KeyPress::Tab)) => {
            if ctx.windows.len() > 0 {
                ctx.windows.set(0, Window { buffer_idx: Some(0) });
                Ok(LoopControl::Continue)
            } else {
                Err(StepError::NoWindowToAttach)
            }
        },
        Some(InputSignal::Key(KeyPress::Other)) => Ok(LoopControl::Continue),
    }
}

} // verus!
