//! Coalescing of terminal-size observations.
//!
//! The display layer polls its own size periodically and hands each
//! observation to a coalescer, which enqueues a resize request only when
//! the size differs from the last one sent.  This keeps continuous
//! window drags from flooding the pseudo-terminal with redundant resize
//! calls; the downstream applier then applies every enqueued request in
//! order, without coalescing of its own.

use vstd::prelude::*;

verus! {

/// A terminal size in character cells, compared by value.
#[derive(Clone, Copy, PartialEq, Eq, Structural, Debug)]
pub struct TerminalSize {
    pub columns: u16,
    pub rows: u16,
}

/// Remembers the last size that was enqueued, so that repeated
/// observations of the same size produce no new request.
pub struct ResizeCoalescer {
    last_sent: Option<TerminalSize>,
}

impl ResizeCoalescer {
    /// The last size this coalescer enqueued, if any.
    pub closed spec fn last(self) -> Option<TerminalSize> {
        self.last_sent
    }

    /// A fresh coalescer has sent nothing, so the first observation is
    /// always enqueued.
    pub fn new() -> (c: ResizeCoalescer)
        ensures
            c.last() is None,
    {
        ResizeCoalescer { last_sent: None }
    }

    /// Hand one size observation to the coalescer.  Returns the request
    /// to enqueue: `Some(size)` exactly when `size` differs from the
    /// last enqueued size, `None` (and no state change) otherwise.
    pub fn observe(&mut self, size: TerminalSize) -> (r: Option<TerminalSize>)
        ensures
            observe_post(*old(self), size, *final(self), r),
    {
        let repeated = match self.last_sent {
            Some(prev) => prev == size,
            None => false,
        };
        if repeated {
            None
        } else {
            self.last_sent = Some(size);
            Some(size)
        }
    }
}

/// The whole contract of `observe`: a repeated size is suppressed and
/// the state is unchanged; a new size is enqueued and remembered.
pub open spec fn observe_post(
    pre: ResizeCoalescer,
    size: TerminalSize,
    post: ResizeCoalescer,
    r: Option<TerminalSize>,
) -> bool {
    &&& pre.last() == Some(size) ==> r is None && post.last() == pre.last()
    &&& pre.last() != Some(size) ==> r == Some(size) && post.last() == Some(size)
}

/// Two consecutive observations of the same size enqueue at most one
/// request.
pub proof fn lemma_repeat_suppressed(
    c0: ResizeCoalescer,
    c1: ResizeCoalescer,
    c2: ResizeCoalescer,
    size: TerminalSize,
    r1: Option<TerminalSize>,
    r2: Option<TerminalSize>,
)
    requires
        observe_post(c0, size, c1, r1),
        observe_post(c1, size, c2, r2),
    ensures
        r2 is None,
        !(r1 is Some && r2 is Some),
{
}

/// Two consecutive observations of different sizes, the first of which
/// is new, enqueue exactly two requests, in observation order.
pub proof fn lemma_distinct_sizes_pass(
    c0: ResizeCoalescer,
    c1: ResizeCoalescer,
    c2: ResizeCoalescer,
    s1: TerminalSize,
    s2: TerminalSize,
    r1: Option<TerminalSize>,
    r2: Option<TerminalSize>,
)
    requires
        observe_post(c0, s1, c1, r1),
        observe_post(c1, s2, c2, r2),
        c0.last() != Some(s1),
        s1 != s2,
    ensures
        r1 == Some(s1),
        r2 == Some(s2),
{
}

} // verus!
