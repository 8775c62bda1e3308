//! The modal popup that shows an error until a key is pressed.
use vstd::prelude::*;
use crate::event::{Component, HandleKeyResult, KeyEvent, KeyStatus};

verus! {

/// Whether an error is shown, and its message.
#[derive(Clone, Debug)]
pub struct ErrorPopup {
    pub active: bool,
    pub message: String,
}

impl ErrorPopup {
    /// A hidden popup with an empty message.
    pub fn new() -> (p: ErrorPopup)
        ensures
            !p.active,
            p.message@.len() == 0,
    {
        ErrorPopup { active: false, message: String::new() }
    }

    /// Whether the popup is shown.
    pub fn is_active(&self) -> (r: bool)
        ensures
            r == self.active,
    {
        self.active
    }

    /// Shows `message`, replacing any earlier one.
    pub fn show(&mut self, message: String)
        ensures
            final(self).active,
            final(self).message == message,
    {
        self.message = message;
        self.active = true;
    }

    /// Hides the popup and clears its message.
    pub fn dismiss(&mut self)
        ensures
            !final(self).active,
            final(self).message@.len() == 0,
    {
        self.active = false;
        self.message.clear();
    }
}

impl Default for ErrorPopup {
    fn default() -> (p: ErrorPopup)
        ensures
            !p.active,
            p.message@.len() == 0,
    {
        ErrorPopup::new()
    }
}

impl Component for ErrorPopup {
    fn is_active(&self) -> (r: bool)
        ensures
            r == self.active,
    {
        self.active
    }

    /// While shown, any key dismisses the popup and is consumed; otherwise keys are ignored.
    fn handle_key(&mut self, key: KeyEvent) -> (r: HandleKeyResult)
        ensures
            r.actions@.len() == 0,
            !old(self).active ==> r.status == KeyStatus::Ignored && *final(self) == *old(self),
            old(self).active ==> r.status == KeyStatus::Consumed && !final(self).active
                && final(self).message@.len() == 0,
    {
        if !self.active {
            return HandleKeyResult::ignored();
        }
        self.dismiss();
        HandleKeyResult::consumed()
    }
}

} // verus!
