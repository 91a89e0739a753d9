//! A bounded, saturating integer cursor.
//!
//! The same small component serves as a scroll offset, a history index and a
//! list-selection index: a `position` that can never leave `[0, max]`.

use vstd::prelude::*;

verus! {

/// Spec-level state of a [`Scroller`].
#[verifier::ext_equal]
pub ghost struct ScrollerView {
    pub position: int,
    pub max: int,
}

impl ScrollerView {
    /// The invariant every scroller keeps: the cursor never leaves `[0, max]`.
    pub open spec fn wf(self) -> bool {
        0 <= self.position <= self.max
    }
}

/// One step back, saturating at 0.
pub open spec fn spec_prev(v: ScrollerView) -> ScrollerView {
    ScrollerView {
        position: if v.position > 0 {
            v.position - 1
        } else {
            v.position
        },
        ..v
    }
}

/// One step forward, saturating at the bound.
pub open spec fn spec_next(v: ScrollerView) -> ScrollerView {
    ScrollerView {
        position: if v.position < v.max {
            v.position + 1
        } else {
            v.position
        },
        ..v
    }
}

/// A cursor over `[0, max]` that saturates at both ends.
pub struct Scroller {
    position: usize,
    max: usize,
}

impl View for Scroller {
    type V = ScrollerView;

    closed spec fn view(&self) -> ScrollerView {
        ScrollerView { position: self.position as int, max: self.max as int }
    }
}

impl Scroller {
    /// A fresh scroller at position 0 with the given bound.
    pub fn new(max: usize) -> (s: Scroller)
        ensures
            s@ == (ScrollerView { position: 0, max: max as int }),
            s@.wf(),
    {
        Scroller { position: 0, max }
    }

    /// Step backwards, saturating at 0.
    pub fn prev(&mut self)
        ensures
            final(self)@.max == old(self)@.max,
            final(self)@.position == if old(self)@.position > 0 {
                old(self)@.position - 1
            } else {
                old(self)@.position
            },
            old(self)@.position == 0 ==> final(self)@ == old(self)@,
            old(self)@.wf() ==> final(self)@.wf(),
    {
        if self.position > 0 {
            self.position = self.position - 1;
        }
    }

    /// Step forwards, saturating at `max`.
    pub fn next(&mut self)
        ensures
            final(self)@.max == old(self)@.max,
            final(self)@.position == if old(self)@.position < old(self)@.max {
                old(self)@.position + 1
            } else {
                old(self)@.position
            },
            old(self)@.position == old(self)@.max ==> final(self)@ == old(self)@,
            old(self)@.wf() ==> final(self)@.wf(),
    {
        if self.position < self.max {
            self.position = self.position + 1;
        }
    }

    /// Replace the bound, clamping the position down if it is now out of
    /// range.
    pub fn set_max(&mut self, max: usize)
        ensures
            final(self)@.max == max as int,
            final(self)@.position == if old(self)@.position > max as int {
                max as int
            } else {
                old(self)@.position
            },
            final(self)@.wf(),
    {
        self.max = max;
        if self.position > self.max {
            self.position = self.max;
        }
    }

    /// Move to `pos` if it is within the bound; out-of-range requests are
    /// silently ignored.
    pub fn set_position(&mut self, pos: usize)
        ensures
            final(self)@.max == old(self)@.max,
            final(self)@.position == if pos as int <= old(self)@.max {
                pos as int
            } else {
                old(self)@.position
            },
            old(self)@.wf() ==> final(self)@.wf(),
    {
        if pos <= self.max {
            self.position = pos;
        }
    }

    /// The current bound.
    pub fn max(&self) -> (m: usize)
        ensures
            m as int == self@.max,
    {
        self.max
    }

    /// The current position.
    pub fn get(&self) -> (p: usize)
        ensures
            p as int == self@.position,
    {
        self.position
    }
}

} // verus!
