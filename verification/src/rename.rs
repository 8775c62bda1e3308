//! The popup for editing an item's alias.
use vstd::prelude::*;
use crate::event::{Component, HandleKeyResult, KeyCode, KeyEvent, KeyStatus};
use crate::tui_action::TuiAction;

verus! {

/// Alias editing state: whether the popup is open and the text typed.
#[derive(Clone, Debug)]
pub struct Rename {
    pub active: bool,
    pub input: String,
}

impl Rename {
    /// A closed popup with empty input.
    pub fn new() -> (r: Rename)
        ensures
            !r.active,
            r.input@.len() == 0,
    {
        Rename { active: false, input: String::new() }
    }

    /// Whether the popup is open.
    pub fn is_active(&self) -> (r: bool)
        ensures
            r == self.active,
    {
        self.active
    }

    /// Opens the popup with the current alias, or empty input when there is none.
    pub fn start(&mut self, current_alias: Option<&str>)
        ensures
            final(self).active,
            final(self).input@ == match current_alias {
                Some(a) => a@,
                None => Seq::<char>::empty(),
            },
    {
        self.input = match current_alias {
            Some(a) => a.to_owned(),
            None => String::new(),
        };
        self.active = true;
    }

    /// Closes the popup without submitting and clears the input.
    pub fn cancel(&mut self)
        ensures
            !final(self).active,
            final(self).input@.len() == 0,
    {
        self.active = false;
        self.input.clear();
    }

    /// Closes the popup after submitting and clears the input.
    pub fn dismiss(&mut self)
        ensures
            !final(self).active,
            final(self).input@.len() == 0,
    {
        self.active = false;
        self.input.clear();
    }

    /// Appends a character to the input.
    pub fn push_char(&mut self, c: char)
        ensures
            final(self).input@ == old(self).input@.push(c),
            final(self).active == old(self).active,
    {
        self.input.push(c);
    }

    /// Removes the last character of the input, if any.
    pub fn pop_char(&mut self)
        ensures
            old(self).input@.len() == 0 ==> final(self).input@ == old(self).input@,
            old(self).input@.len() > 0 ==> final(self).input@ == old(self).input@.drop_last(),
            final(self).active == old(self).active,
    {
        self.input.pop();
    }

    /// The text typed.
    pub fn input(&self) -> (r: &str)
        ensures
            r@ == self.input@,
    {
        self.input.as_str()
    }
}

impl Default for Rename {
    fn default() -> (r: Rename)
        ensures
            !r.active,
            r.input@.len() == 0,
    {
        Rename::new()
    }
}

/// What a key does to the alias popup (see `Rename::handle_key`).
pub open spec fn rename_key_handled(before: Rename, after: Rename, key: KeyEvent, r: HandleKeyResult) -> bool {
    &&& !before.active ==> r.status == KeyStatus::Ignored && r.actions@.len() == 0
            && after == before
    &&& before.active ==> r.status == KeyStatus::Consumed
    &&& before.active && key.code == KeyCode::Esc ==> !after.active
            && after.input@.len() == 0 && r.actions@.len() == 0
    &&& before.active && key.code == KeyCode::Enter ==> !after.active
            && after.input@.len() == 0
            && r.actions@ == seq![TuiAction::RenameSubmit(before.input)]
    &&& before.active && key.code == KeyCode::Backspace ==> after.active
            && r.actions@.len() == 0
            && (before.input@.len() == 0 ==> after.input@ == before.input@)
            && (before.input@.len() > 0 ==> after.input@ == before.input@.drop_last())
    &&& before.active ==> (key.code matches KeyCode::Char(c) ==> after.active
            && r.actions@.len() == 0 && after.input@ == before.input@.push(c))
    &&& before.active && !(key.code is Esc || key.code is Enter || key.code is Backspace
            || key.code is Char) ==> after == before && r.actions@.len() == 0
}

impl Component for Rename {
    fn is_active(&self) -> (r: bool)
        ensures
            r == self.active,
    {
        self.active
    }

    /// While open: Esc cancels, Enter closes and submits the typed alias, Backspace
    /// deletes, a character is typed; every key is consumed. While closed, keys are ignored.
    fn handle_key(&mut self, key: KeyEvent) -> (r: HandleKeyResult)
        ensures
            rename_key_handled(*old(self), *final(self), key, r),
    {
        if !self.active {
            return HandleKeyResult::ignored();
        }
        match key.code {
            KeyCode::Esc => {
                self.cancel();
                HandleKeyResult::consumed()
            },
            KeyCode::Enter => {
                let value = self.input.clone();
                self.dismiss();
                HandleKeyResult::with_action(TuiAction::RenameSubmit(value))
            },
            KeyCode::Backspace => {
                self.pop_char();
                HandleKeyResult::consumed()
            },
            KeyCode::Char(c) => {
                self.push_char(c);
                HandleKeyResult::consumed()
            },
            _ => HandleKeyResult::consumed(),
        }
    }
}

} // verus!
