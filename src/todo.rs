//! The items of the todo list: their text, state and indentation level.
use vstd::prelude::*;

verus! {

/// The deepest indentation level of an item: two spaces per level, sixteen
/// at most.
pub const MAX_LEVEL: usize = 8;

/// How many undo steps are kept when the configuration names none.
pub fn default_undo_steps() -> (r: usize)
    ensures
        r == 4096,
{
    4096
}

/// Whether a level is the top level, which is not written out.
pub fn is_zero(n: &usize) -> (r: bool)
    ensures
        r == (*n == 0),
{
    *n == 0
}

/// The progress of an item.
#[derive(Clone, Copy, Debug, PartialEq, Eq, Structural, PartialOrd, Ord)]
pub enum State {
    Open,
    Wip,
    Done,
}

pub open spec fn next_state(s: State) -> State {
    match s {
        State::Open => State::Wip,
        State::Wip => State::Done,
        State::Done => State::Open,
    }
}

pub open spec fn state_marker(s: State) -> Seq<char> {
    match s {
        State::Open => "[ ] "@,
        State::Wip => "[.] "@,
        State::Done => "[X] "@,
    }
}

impl Default for State {
    fn default() -> (r: Self)
        ensures
            r == State::Open,
    {
        State::Open
    }
}

impl State {
    /// Open, then work in progress, then done, then open again.
    pub fn next(&mut self)
        ensures
            *final(self) == next_state(*old(self)),
    {
        *self = match *self {
            State::Open => State::Wip,
            State::Wip => State::Done,
            State::Done => State::Open,
        };
    }

    /// The check box written before the item's text.
    pub fn as_str(&self) -> (r: &'static str)
        ensures
            r@ == state_marker(*self),
    {
        match self {
            State::Open => "[ ] ",
            State::Wip => "[.] ",
            State::Done => "[X] ",
        }
    }

    /// Open is the state left out when the list is saved.
    pub fn is_open(&self) -> (r: bool)
        ensures
            r == (*self == State::Open),
    {
        match self {
            State::Open => true,
            _ => false,
        }
    }
}

/// One item of the list.
#[derive(Debug, PartialEq, Eq)]
pub struct Todo {
    pub level: usize,
    pub text: String,
    pub state: State,
    /// Set while the item is selected; never saved.
    pub selected: bool,
}

impl Default for Todo {
    fn default() -> (r: Self)
        ensures
            r.level == 0,
            r.text@.len() == 0,
            r.state == State::Open,
            !r.selected,
    {
        Todo { level: 0, text: String::new(), state: State::Open, selected: false }
    }
}

impl Todo {
    /// Indents the item one level more, up to the deepest level.
    pub fn level_incr(&mut self)
        ensures
            final(self).level == if old(self).level < MAX_LEVEL {
                old(self).level + 1
            } else {
                old(self).level as int
            },
            final(self).text == old(self).text,
            final(self).state == old(self).state,
            final(self).selected == old(self).selected,
    {
        if self.level < MAX_LEVEL {
            self.level += 1;
        }
    }

    /// Indents the item one level less, down to the top level.
    pub fn level_decr(&mut self)
        ensures
            final(self).level == if old(self).level > 0 {
                old(self).level - 1
            } else {
                0
            },
            final(self).text == old(self).text,
            final(self).state == old(self).state,
            final(self).selected == old(self).selected,
    {
        self.level = self.level.saturating_sub(1);
    }
}

} // verus!
