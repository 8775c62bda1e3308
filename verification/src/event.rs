//! Key input and the result of handling a key.
use vstd::prelude::*;
use crate::tui_action::TuiAction;

verus! {

/// A key as seen by the components.
#[derive(Clone, Copy, Debug, PartialEq, Eq, Hash)]
pub enum KeyCode {
    Backspace,
    Enter,
    Left,
    Right,
    Up,
    Down,
    Home,
    End,
    PageUp,
    PageDown,
    Tab,
    BackTab,
    Delete,
    Insert,
    F(u8),
    Char(char),
    Null,
    Esc,
    /// Any other key.
    Other,
}

/// A key press.
#[derive(Clone, Copy, Debug, PartialEq, Eq, Hash)]
pub struct KeyEvent {
    pub code: KeyCode,
}

impl From<KeyCode> for KeyEvent {
    fn from(code: KeyCode) -> (r: KeyEvent) {
        KeyEvent { code }
    }
}

impl vstd::std_specs::convert::FromSpecImpl<KeyCode> for KeyEvent {
    open spec fn obeys_from_spec() -> bool {
        true
    }

    open spec fn from_spec(v: KeyCode) -> KeyEvent {
        KeyEvent { code: v }
    }
}

/// Whether a component handled a key.
#[derive(Clone, Copy, Debug, PartialEq, Eq)]
pub enum KeyStatus {
    Consumed,
    Ignored,
}

/// What handling a key produced: whether it was consumed, and the actions it triggers.
#[derive(Clone, Debug, PartialEq, Eq)]
pub struct HandleKeyResult {
    pub status: KeyStatus,
    pub actions: Vec<TuiAction>,
}

impl HandleKeyResult {
    /// The key was not handled.
    pub fn ignored() -> (r: HandleKeyResult)
        ensures
            r.status == KeyStatus::Ignored,
            r.actions@.len() == 0,
    {
        HandleKeyResult { status: KeyStatus::Ignored, actions: Vec::new() }
    }

    /// The key was handled and triggers nothing.
    pub fn consumed() -> (r: HandleKeyResult)
        ensures
            r.status == KeyStatus::Consumed,
            r.actions@.len() == 0,
    {
        HandleKeyResult { status: KeyStatus::Consumed, actions: Vec::new() }
    }

    /// The key was handled and triggers `action`.
    pub fn with_action(action: TuiAction) -> (r: HandleKeyResult)
        ensures
            r.status == KeyStatus::Consumed,
            r.actions@ == seq![action],
    {
        let mut actions: Vec<TuiAction> = Vec::new();
        actions.push(action);
        HandleKeyResult { status: KeyStatus::Consumed, actions }
    }

    /// Whether the key was handled.
    pub fn is_consumed(&self) -> (r: bool)
        ensures
            r == (self.status == KeyStatus::Consumed),
    {
        match self.status {
            KeyStatus::Consumed => true,
            KeyStatus::Ignored => false,
        }
    }
}

/// A part of the interface that can take key input.
pub trait Component: Sized {
    /// Whether the component currently wants key input first; by default it never does.
    fn is_active(&self) -> (r: bool)
        default_ensures
            !r,
    {
        false
    }

    /// Handles a key; a result that is not consumed lets the key go to the next handler.
    /// By default every key is ignored and the component stays as it was.
    fn handle_key(&mut self, key: KeyEvent) -> (r: HandleKeyResult)
        default_ensures
            r.status == KeyStatus::Ignored,
            r.actions@.len() == 0,
            *final(self) == *old(self),
    {
        HandleKeyResult::ignored()
    }
}

} // verus!
