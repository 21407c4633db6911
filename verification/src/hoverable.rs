//! Whether the cursor is over a hoverable song row.
use vstd::prelude::*;

verus! {

/// The hover state of one widget.
#[derive(Debug, Clone, Copy, PartialEq, Eq, Structural)]
pub struct State {
    is_hovered: bool,
}

impl State {
    pub closed spec fn hovered(self) -> bool {
        self.is_hovered
    }

    /// Not hovered.
    pub fn new() -> (s: State)
        ensures
            !s.hovered(),
    {
        State { is_hovered: false }
    }

    /// Two states are equal exactly when both are hovered or both are not.
    pub proof fn lemma_hovered_equal(a: State, b: State)
        ensures
            (a == b) <==> (a.hovered() == b.hovered()),
    {
    }

    pub fn is_hovered(&self) -> (h: bool)
        ensures
            h == self.hovered(),
    {
        self.is_hovered
    }

    /// Records whether the cursor is over the widget now; true when that changed.
    pub fn set_hovered(&mut self, now_hovered: bool) -> (changed: bool)
        ensures
            final(self).hovered() == now_hovered,
            changed == (old(self).hovered() != now_hovered),
    {
        if self.is_hovered != now_hovered {
            self.is_hovered = now_hovered;
            true
        } else {
            false
        }
    }
}

impl Default for State {
    /// Not hovered, as `new` gives.
    fn default() -> (s: State)
        ensures
            !s.hovered(),
    {
        State { is_hovered: false }
    }
}

} // verus!
