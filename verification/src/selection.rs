//! Render-loop-local cursor over the current result list: an optional index
//! with wrapping movement over the current result count.

use vstd::prelude::*;

verus! {

/// Optional cursor into a result list of a known length.
pub struct SelectionState {
    selected: Option<usize>,
}

impl SelectionState {
    /// The currently selected index, if any.
    pub closed spec fn spec_selected(&self) -> Option<usize> {
        self.selected
    }

    /// Well-formed with respect to a list of `len` items: a selected index
    /// is always in bounds.
    pub open spec fn wf(&self, len: usize) -> bool {
        self.spec_selected() matches Some(i) ==> i < len
    }

    /// Where the cursor moves on a downward step over `len` items:
    /// no-op on an empty list, first item when nothing was selected,
    /// otherwise one step down, wrapping from the last item to the first.
    pub open spec fn spec_down(&self, len: usize) -> Option<usize> {
        if len == 0 {
            self.spec_selected()
        } else {
            match self.spec_selected() {
                None => Some(0usize),
                Some(i) => if i + 1 >= len {
                    Some(0usize)
                } else {
                    Some((i + 1) as usize)
                },
            }
        }
    }

    /// Where the cursor moves on an upward step over `len` items:
    /// no-op on an empty list, first item when nothing was selected,
    /// otherwise one step up, wrapping from the first item to the last.
    pub open spec fn spec_up(&self, len: usize) -> Option<usize> {
        if len == 0 {
            self.spec_selected()
        } else {
            match self.spec_selected() {
                None => Some(0usize),
                Some(i) => if i == 0 {
                    Some((len - 1) as usize)
                } else {
                    Some((i - 1) as usize)
                },
            }
        }
    }

    /// No selection.
    pub fn new() -> (s: Self)
        ensures
            s.spec_selected() is None,
    {
        SelectionState { selected: None }
    }

    /// The selected index, if any.
    pub fn selected(&self) -> (r: Option<usize>)
        ensures
            r == self.spec_selected(),
    {
        self.selected
    }

    /// Clear the selection.
    pub fn reset(&mut self)
        ensures
            final(self).spec_selected() is None,
    {
        self.selected = None;
    }

    /// Move the cursor one step down with wraparound over `len` items.
    pub fn down(&mut self, len: usize)
        requires
            old(self).wf(len),
        ensures
            final(self).spec_selected() == old(self).spec_down(len),
            final(self).wf(len),
    {
        if len > 0 {
            let next: usize = match self.selected {
                None => 0,
                Some(i) => if i + 1 >= len {
                    0
                } else {
                    i + 1
                },
            };
            self.selected = Some(next);
        }
    }

    /// Move the cursor one step up with wraparound over `len` items.
    pub fn up(&mut self, len: usize)
        requires
            old(self).wf(len),
        ensures
            final(self).spec_selected() == old(self).spec_up(len),
            final(self).wf(len),
    {
        if len > 0 {
            let next: usize = match self.selected {
                None => 0,
                Some(i) => if i == 0 {
                    len - 1
                } else {
                    i - 1
                },
            };
            self.selected = Some(next);
        }
    }
}

} // verus!
