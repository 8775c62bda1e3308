//! The status line at the bottom of the interface.
use vstd::prelude::*;

verus! {

/// Text that can be turned into a status message.
pub trait MessageText {
    /// The characters of the message.
    spec fn message_chars(&self) -> Seq<char>;

    /// The message as an owned string.
    fn into_message(self) -> (r: String)
        ensures
            r@ == self.message_chars(),
    ;
}

impl MessageText for &str {
    open spec fn message_chars(&self) -> Seq<char> {
        (**self)@
    }

    fn into_message(self) -> (r: String) {
        self.to_owned()
    }
}

impl MessageText for String {
    open spec fn message_chars(&self) -> Seq<char> {
        self@
    }

    fn into_message(self) -> (r: String) {
        self
    }
}

/// Shows a message until it is replaced or cleared.
#[derive(Clone, Debug)]
pub struct StatusBar {
    message: Option<String>,
}

impl StatusBar {
    /// The message shown, if any.
    pub closed spec fn shown(self) -> Option<Seq<char>> {
        match self.message {
            Some(m) => Some(m@),
            None => None,
        }
    }

    /// A status bar without a message.
    pub fn new() -> (s: StatusBar)
        ensures
            s.shown() is None,
    {
        StatusBar { message: None }
    }

    /// Shows `message`, replacing any earlier one.
    pub fn set<M: MessageText>(&mut self, message: M)
        ensures
            final(self).shown() == Some(message.message_chars()),
    {
        self.message = Some(message.into_message());
    }

    /// Removes the message.
    pub fn clear(&mut self)
        ensures
            final(self).shown() is None,
    {
        self.message = None;
    }

    /// The message shown, if any.
    pub fn message(&self) -> (r: Option<&str>)
        ensures
            r is Some <==> self.shown() is Some,
            r matches Some(m) ==> self.shown() == Some(m@),
    {
        match &self.message {
            Some(m) => Some(m.as_str()),
            None => None,
        }
    }
}

impl Default for StatusBar {
    fn default() -> (s: StatusBar)
        ensures
            s.shown() is None,
    {
        StatusBar::new()
    }
}

} // verus!
