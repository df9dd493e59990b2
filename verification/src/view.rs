//! Render/input loop state machines. Each view is a pure transition
//! function from (state, key event) to (next state, outcome); the loop
//! around it draws frames, polls the keyboard and performs the outcome.

use vstd::prelude::*;
use crate::input::InputBuffer;
use crate::selection::SelectionState;

verus! {

/// The key presses the views recognize.
#[derive(Clone, Copy, PartialEq, Eq, Structural, Debug)]
pub enum Key {
    Char(char),
    Enter,
    Esc,
    Backspace,
    Up,
    Down,
    Other,
}

/// What one key press in the search view asks the loop to do.
#[derive(Clone, Copy, PartialEq, Eq, Structural, Debug)]
pub enum SearchOutcome {
    /// Nothing to do; draw the next frame.
    Continue,
    /// The input changed: wake the debounced search engine.
    SignalSearch,
    /// Enter with a selection: leave the view with this result index.
    Selected(usize),
    /// Enter with no selection: leave the view with the no-selection error.
    NoSelection,
}

/// How the input text changes on a key press: characters append, backspace
/// drops the last character (an empty buffer stays empty), all other keys
/// leave it alone.
pub open spec fn next_input(s: Seq<char>, key: Key) -> Seq<char> {
    match key {
        Key::Char(c) => s.push(c),
        Key::Backspace => if s.len() == 0 {
            s
        } else {
            s.drop_last()
        },
        _ => s,
    }
}

/// The outcome of a key press, given the selection as it stood: Enter
/// confirms the selection or fails with no-selection, edits signal the
/// search engine, everything else just continues.
pub open spec fn outcome_of(sel: Option<usize>, key: Key) -> SearchOutcome {
    match key {
        Key::Enter => match sel {
            Some(i) => SearchOutcome::Selected(i),
            None => SearchOutcome::NoSelection,
        },
        Key::Char(_) => SearchOutcome::SignalSearch,
        Key::Backspace => SearchOutcome::SignalSearch,
        _ => SearchOutcome::Continue,
    }
}

/// State of the location search view: the text buffer, the cursor over the
/// current result list, and which store version that list came under.
pub struct SearchView {
    input: InputBuffer,
    selection: SelectionState,
    seen_version: u64,
    result_len: usize,
}

impl SearchView {
    /// The text typed so far.
    pub closed spec fn spec_input(&self) -> Seq<char> {
        self.input@
    }

    /// The cursor state.
    pub closed spec fn spec_selection(&self) -> SelectionState {
        self.selection
    }

    /// The selected result index, if any.
    pub open spec fn spec_selected(&self) -> Option<usize> {
        self.spec_selection().spec_selected()
    }

    /// The store version of the result list the view last observed.
    pub closed spec fn spec_seen_version(&self) -> u64 {
        self.seen_version
    }

    /// The length of that result list.
    pub closed spec fn spec_result_len(&self) -> usize {
        self.result_len
    }

    /// A selected index always lies within the observed result list.
    pub open spec fn wf(&self) -> bool {
        self.spec_selection().wf(self.spec_result_len())
    }

    /// A fresh view: empty input, no selection, the store's initial version.
    pub fn new() -> (v: Self)
        ensures
            v.wf(),
            v.spec_input() == Seq::<char>::empty(),
            v.spec_selected() is None,
            v.spec_seen_version() == 0,
            v.spec_result_len() == 0,
    {
        SearchView {
            input: InputBuffer::new(),
            selection: SelectionState::new(),
            seen_version: 0,
            result_len: 0,
        }
    }

    /// Take note of the store snapshot for this frame. Whenever the version
    /// has advanced the selection resets to none — even if the new list has
    /// the same length — so the cursor can never point at a stale item.
    /// Within one version the result list never changes, so its length is
    /// the one already observed.
    pub fn observe(&mut self, version: u64, len: usize)
        requires
            old(self).wf(),
            version == old(self).spec_seen_version() ==> len == old(self).spec_result_len(),
        ensures
            final(self).wf(),
            final(self).spec_seen_version() == version,
            final(self).spec_result_len() == len,
            final(self).spec_input() == old(self).spec_input(),
            version != old(self).spec_seen_version() ==> final(self).spec_selected() is None,
            version == old(self).spec_seen_version() ==> final(self).spec_selection() == old(
                self,
            ).spec_selection(),
    {
        if version != self.seen_version {
            self.selection.reset();
            self.seen_version = version;
        }
        self.result_len = len;
    }

    /// One key press. The input text, the cursor and the outcome all follow
    /// the spec transitions exactly; a confirmed selection is always in
    /// bounds of the observed result list.
    pub fn on_key(&mut self, key: Key) -> (r: SearchOutcome)
        requires
            old(self).wf(),
        ensures
            final(self).wf(),
            final(self).spec_seen_version() == old(self).spec_seen_version(),
            final(self).spec_result_len() == old(self).spec_result_len(),
            final(self).spec_input() == next_input(old(self).spec_input(), key),
            final(self).spec_selected() == match key {
                Key::Up => old(self).spec_selection().spec_up(old(self).spec_result_len()),
                Key::Down => old(self).spec_selection().spec_down(old(self).spec_result_len()),
                _ => old(self).spec_selected(),
            },
            r == outcome_of(old(self).spec_selected(), key),
            r matches SearchOutcome::Selected(i) ==> i < old(self).spec_result_len(),
    {
        match key {
            Key::Char(c) => {
                self.input.push(c);
                SearchOutcome::SignalSearch
            },
            Key::Backspace => {
                self.input.backspace();
                SearchOutcome::SignalSearch
            },
            Key::Up => {
                self.selection.up(self.result_len);
                SearchOutcome::Continue
            },
            Key::Down => {
                self.selection.down(self.result_len);
                SearchOutcome::Continue
            },
            Key::Enter => match self.selection.selected() {
                Some(i) => SearchOutcome::Selected(i),
                None => SearchOutcome::NoSelection,
            },
            Key::Esc => SearchOutcome::Continue,
            Key::Other => SearchOutcome::Continue,
        }
    }

    /// The current input text, for drawing and for dispatching a search.
    pub fn input_text(&self) -> (r: &String)
        ensures
            r@ == self.spec_input(),
    {
        self.input.text()
    }

    /// The selected result index, if any.
    pub fn selected(&self) -> (r: Option<usize>)
        ensures
            r == self.spec_selected(),
    {
        self.selection.selected()
    }

    /// The store version of the result list the view last observed.
    pub fn seen_version(&self) -> (r: u64)
        ensures
            r == self.spec_seen_version(),
    {
        self.seen_version
    }

    /// The length of the result list the view last observed.
    pub fn result_len(&self) -> (r: usize)
        ensures
            r == self.spec_result_len(),
    {
        self.result_len
    }
}

/// Whether a key press exits the itinerary view: `q` or Escape do, every
/// other key is ignored.
pub open spec fn spec_itinerary_exit(key: Key) -> bool {
    key == Key::Char('q') || key == Key::Esc
}

/// Itinerary view key handling: report whether this key exits the view.
pub fn itinerary_exit_key(key: Key) -> (r: bool)
    ensures
        r == spec_itinerary_exit(key),
{
    match key {
        Key::Char(c) => c == 'q',
        Key::Esc => true,
        _ => false,
    }
}

} // verus!
