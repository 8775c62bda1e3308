//! The filter of a pane: the pattern being typed and the pattern applied.
use vstd::prelude::*;
use crate::event::{Component, HandleKeyResult, KeyCode, KeyEvent, KeyStatus};

verus! {

/// Filter state of a pane: whether a pattern is being typed, the text typed so
/// far, the pattern in effect, and the pattern that was in effect before typing began.
#[derive(Clone, Debug)]
pub struct Filter {
    pub active: bool,
    pub input: String,
    pub applied: Option<String>,
    pub previous: Option<String>,
}

/// `after` is `before` with a new pattern begun: typing, nothing typed, nothing
/// applied, and the pattern applied before kept aside.
pub open spec fn started(before: Filter, after: Filter) -> bool {
    &&& after.active
    &&& after.input@.len() == 0
    &&& after.applied is None
    &&& after.previous == before.applied
}

/// `after` is `before` with typing given up: the pattern kept aside applies again.
pub open spec fn cancelled(before: Filter, after: Filter) -> bool {
    &&& !after.active
    &&& after.input@.len() == 0
    &&& after.applied == before.previous
    &&& after.previous is None
}

/// `after` is `before` with the typed pattern applied, or no pattern when none was typed.
pub open spec fn submitted(before: Filter, after: Filter) -> bool {
    &&& !after.active
    &&& after.input@.len() == 0
    &&& (before.input@.len() == 0 ==> after.applied is None)
    &&& (before.input@.len() > 0 ==> after.applied == Some(before.input))
    &&& after.previous is None
}

/// `after` is `before` with `c` typed at the end of the pattern, all else kept.
pub open spec fn typed(before: Filter, after: Filter, c: char) -> bool {
    &&& after.input@ == before.input@.push(c)
    &&& after.active == before.active
    &&& after.applied == before.applied
    &&& after.previous == before.previous
}

/// `after` is `before` with the last typed character erased, if there is one, all
/// else kept.
pub open spec fn erased(before: Filter, after: Filter) -> bool {
    &&& (before.input@.len() == 0 ==> after.input@ == before.input@)
    &&& (before.input@.len() > 0 ==> after.input@ == before.input@.drop_last())
    &&& after.active == before.active
    &&& after.applied == before.applied
    &&& after.previous == before.previous
}

/// `after` is `before` after one edit of the typed pattern: a character typed or the
/// last one erased.
pub open spec fn edited(before: Filter, after: Filter) -> bool {
    (exists|c: char| typed(before, after, c)) || erased(before, after)
}

impl Filter {
    /// An inactive filter with nothing applied.
    pub fn new() -> (f: Filter)
        ensures
            !f.active,
            f.input@.len() == 0,
            f.applied is None,
            f.previous is None,
    {
        Filter { active: false, input: String::new(), applied: None, previous: None }
    }

    /// Whether a pattern is being typed.
    pub fn is_active(&self) -> (r: bool)
        ensures
            r == self.active,
    {
        self.active
    }

    /// Whether a pattern is in effect.
    pub fn has_applied(&self) -> (r: bool)
        ensures
            r == self.applied is Some,
    {
        self.applied.is_some()
    }

    /// Begins typing a new pattern; the applied one is kept aside to restore on cancel.
    pub fn start(&mut self)
        ensures
            started(*old(self), *final(self)),
    {
        self.previous = self.applied.take();
        self.input.clear();
        self.active = true;
    }

    /// Stops typing and restores the pattern that was in effect before.
    pub fn cancel(&mut self)
        ensures
            cancelled(*old(self), *final(self)),
    {
        self.applied = self.previous.take();
        self.input.clear();
        self.active = false;
    }

    /// Stops typing and applies the typed pattern; an empty pattern removes the filter.
    pub fn submit(&mut self)
        ensures
            submitted(*old(self), *final(self)),
    {
        self.applied = if self.input.as_str().is_empty() {
            None
        } else {
            Some(self.input.clone())
        };
        self.previous = None;
        self.input.clear();
        self.active = false;
    }

    /// Appends a character to the typed pattern.
    pub fn push_char(&mut self, c: char)
        ensures
            typed(*old(self), *final(self), c),
    {
        self.input.push(c);
    }

    /// Removes the last character of the typed pattern, if any.
    pub fn pop_char(&mut self)
        ensures
            erased(*old(self), *final(self)),
    {
        self.input.pop();
    }

    /// The typed pattern.
    pub fn input(&self) -> (r: &str)
        ensures
            r@ == self.input@,
    {
        self.input.as_str()
    }

    /// The pattern in effect, if any.
    pub fn applied(&self) -> (r: Option<&str>)
        ensures
            r is Some <==> self.applied is Some,
            r matches Some(a) ==> a@ == self.applied->0@,
    {
        match &self.applied {
            Some(a) => Some(a.as_str()),
            None => None,
        }
    }
}

impl Default for Filter {
    fn default() -> (f: Filter)
        ensures
            !f.active,
            f.input@.len() == 0,
            f.applied is None,
            f.previous is None,
    {
        Filter::new()
    }
}

/// What a key does to a filter (see `Filter::handle_key`).
pub open spec fn filter_key_handled(before: Filter, after: Filter, key: KeyEvent, r: HandleKeyResult) -> bool {
    &&& r.actions@.len() == 0
    &&& !before.active ==> r.status == KeyStatus::Ignored && after == before
    &&& before.active ==> r.status == KeyStatus::Consumed
    &&& before.active && key.code == KeyCode::Esc ==> cancelled(before, after)
    &&& before.active && key.code == KeyCode::Enter ==> submitted(before, after)
    &&& before.active && key.code == KeyCode::Backspace ==> erased(before, after)
    &&& before.active ==> (key.code matches KeyCode::Char(c) ==> typed(before, after, c))
    &&& before.active && !(key.code is Esc || key.code is Enter || key.code is Backspace
            || key.code is Char) ==> after == before
}

impl Component for Filter {
    fn is_active(&self) -> (r: bool)
        ensures
            r == self.active,
    {
        self.active
    }

    /// While active: Esc cancels, Enter submits, Backspace deletes, a character is
    /// typed; every key is consumed. While inactive every key is ignored.
    fn handle_key(&mut self, key: KeyEvent) -> (r: HandleKeyResult)
        ensures
            filter_key_handled(*old(self), *final(self), key, r),
    {
        if !self.active {
            return HandleKeyResult::ignored();
        }
        match key.code {
            KeyCode::Esc => {
                self.cancel();
                HandleKeyResult::consumed()
            },
            KeyCode::Enter => {
                self.submit();
                HandleKeyResult::consumed()
            },
            KeyCode::Backspace => {
                self.pop_char();
                HandleKeyResult::consumed()
            },
            KeyCode::Char(c) => {
                self.push_char(c);
                HandleKeyResult::consumed()
            },
            _ => HandleKeyResult::consumed(),
        }
    }
}

} // verus!
