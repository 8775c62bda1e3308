//! The which-key popup: pending key sequences and the help listing.
use vstd::prelude::*;
use crate::event::{Component, HandleKeyResult, KeyCode, KeyStatus};
use crate::tui_action::TuiAction;
use crate::text::owned;

verus! {

/// A key that can appear in a key sequence.
#[derive(Clone, Copy, Debug, PartialEq, Eq, Hash)]
pub enum Key {
    Char(char),
    Enter,
    Esc,
    Backspace,
    Tab,
    Up,
    Down,
    Left,
    Right,
}

/// The key for a key code, if it can appear in a key sequence.
pub open spec fn key_of_code(code: KeyCode) -> Option<Key> {
    match code {
        KeyCode::Char(c) => Some(Key::Char(c)),
        KeyCode::Enter => Some(Key::Enter),
        KeyCode::Esc => Some(Key::Esc),
        KeyCode::Backspace => Some(Key::Backspace),
        KeyCode::Tab => Some(Key::Tab),
        KeyCode::Up => Some(Key::Up),
        KeyCode::Down => Some(Key::Down),
        KeyCode::Left => Some(Key::Left),
        KeyCode::Right => Some(Key::Right),
        _ => None,
    }
}

/// How a key is written in the help popup.
pub open spec fn key_text(k: Key) -> Seq<char> {
    match k {
        Key::Char(c) => seq![c],
        Key::Enter => "Enter"@,
        Key::Esc => "Esc"@,
        Key::Backspace => "Backspace"@,
        Key::Tab => "Tab"@,
        Key::Up => "Up"@,
        Key::Down => "Down"@,
        Key::Left => "Left"@,
        Key::Right => "Right"@,
    }
}

impl Key {
    /// The key for a key code, if it can appear in a key sequence.
    pub fn from_keycode(code: KeyCode) -> (r: Option<Key>)
        ensures
            r == key_of_code(code),
    {
        match code {
            KeyCode::Char(c) => Some(Key::Char(c)),
            KeyCode::Enter => Some(Key::Enter),
            KeyCode::Esc => Some(Key::Esc),
            KeyCode::Backspace => Some(Key::Backspace),
            KeyCode::Tab => Some(Key::Tab),
            KeyCode::Up => Some(Key::Up),
            KeyCode::Down => Some(Key::Down),
            KeyCode::Left => Some(Key::Left),
            KeyCode::Right => Some(Key::Right),
            _ => None,
        }
    }

    /// How the key is written in the help popup.
    pub fn display(&self) -> (r: String)
        ensures
            r@ == key_text(*self),
    {
        match self {
            Key::Char(c) => {
                let mut s = String::new();
                s.push(*c);
                s
            },
            Key::Enter => owned("Enter"),
            Key::Esc => owned("Esc"),
            Key::Backspace => owned("Backspace"),
            Key::Tab => owned("Tab"),
            Key::Up => owned("Up"),
            Key::Down => owned("Down"),
            Key::Left => owned("Left"),
            Key::Right => owned("Right"),
        }
    }
}

/// What a key map binds at a key sequence.
#[derive(Clone, Debug, PartialEq, Eq)]
pub enum KeyNode {
    /// The sequence is complete and triggers an action.
    Leaf(TuiAction),
    /// The sequence is a prefix of longer sequences.
    Branch,
}

/// The corner in which the popup is drawn.
#[derive(Clone, Copy, Debug, PartialEq, Eq)]
pub enum WhichKeyPosition {
    BottomLeft,
    BottomRight,
}

/// Size and placement of the popup.
#[derive(Clone, Copy, Debug, PartialEq, Eq)]
pub struct WhichKeyConfig {
    pub max_height: u16,
    pub position: WhichKeyPosition,
}

impl Default for WhichKeyConfig {
    fn default() -> (c: WhichKeyConfig)
        ensures
            c.max_height == 10,
            c.position == WhichKeyPosition::BottomRight,
    {
        WhichKeyConfig { max_height: 10, position: WhichKeyPosition::BottomRight }
    }
}

/// The which-key popup: whether the help listing is shown, the keys of a pending
/// sequence, and the action a completed sequence triggered.
#[derive(Clone, Debug)]
pub struct WhichKey {
    pub active: bool,
    pub config: WhichKeyConfig,
    pub pending_keys: Vec<Key>,
    pub pending_action: Option<TuiAction>,
}

/// The pending keys written as `a > b > c`.
pub open spec fn path_text(keys: Seq<Key>) -> Seq<char>
    decreases keys.len(),
{
    if keys.len() == 0 {
        Seq::empty()
    } else if keys.len() == 1 {
        key_text(keys[0])
    } else {
        path_text(keys.drop_last()) + " > "@ + key_text(keys.last())
    }
}

/// What a key does to a pending sequence (see [`WhichKey::handle_key_with_node`]).
pub open spec fn sequence_key_handled(
    before: WhichKey,
    after: WhichKey,
    key: Option<Key>,
    node: Option<KeyNode>,
    r: HandleKeyResult,
) -> bool {
    &&& r.actions@.len() == 0
    &&& before.pending_keys@.len() == 0 ==> r.status == KeyStatus::Ignored && after == before
    &&& before.pending_keys@.len() > 0 ==> r.status == KeyStatus::Consumed
            && after.config == before.config
            && match key {
                None => !after.active && after.pending_keys@.len() == 0
                    && after.pending_action is None,
                Some(Key::Esc) => !after.active && after.pending_keys@.len() == 0
                    && after.pending_action is None,
                Some(Key::Backspace) => if before.pending_keys@.len() > 1 {
                    after.active == before.active
                        && after.pending_keys@ == before.pending_keys@.drop_last()
                        && after.pending_action == before.pending_action
                } else {
                    !after.active && after.pending_keys@.len() == 0
                        && after.pending_action is None
                },
                Some(k) => match node {
                    Some(KeyNode::Leaf(a)) => !after.active && after.pending_keys@.len() == 0
                        && after.pending_action == Some(a),
                    Some(KeyNode::Branch) => after.active
                        && after.pending_keys@ == before.pending_keys@.push(k)
                        && after.pending_action == before.pending_action,
                    None => !after.active && after.pending_keys@.len() == 0
                        && after.pending_action is None,
                },
            }
}

impl WhichKey {
    /// A hidden popup with no pending sequence.
    pub fn new(config: WhichKeyConfig) -> (w: WhichKey)
        ensures
            !w.active,
            w.config == config,
            w.pending_keys@.len() == 0,
            w.pending_action is None,
    {
        WhichKey { active: false, config, pending_keys: Vec::new(), pending_action: None }
    }

    /// Shows or hides the help listing.
    pub fn toggle(&mut self)
        ensures
            final(self).active == !old(self).active,
            final(self).config == old(self).config,
            final(self).pending_keys == old(self).pending_keys,
            final(self).pending_action == old(self).pending_action,
    {
        self.active = !self.active;
    }

    /// Hides the popup and forgets the pending sequence and action.
    pub fn dismiss(&mut self)
        ensures
            !final(self).active,
            final(self).config == old(self).config,
            final(self).pending_keys@.len() == 0,
            final(self).pending_action is None,
    {
        self.active = false;
        self.pending_keys.clear();
        self.pending_action = None;
    }

    /// Extends the pending sequence with `key` and shows the popup.
    pub fn push_key(&mut self, key: Key)
        ensures
            final(self).active,
            final(self).config == old(self).config,
            final(self).pending_keys@ == old(self).pending_keys@.push(key),
            final(self).pending_action == old(self).pending_action,
    {
        self.active = true;
        self.pending_keys.push(key);
    }

    /// Drops the last pending key; tells whether there was one.
    pub fn pop_key(&mut self) -> (r: bool)
        ensures
            r == (old(self).pending_keys@.len() > 0),
            r ==> final(self).pending_keys@ == old(self).pending_keys@.drop_last(),
            !r ==> final(self).pending_keys@ == old(self).pending_keys@,
            final(self).active == old(self).active,
            final(self).config == old(self).config,
            final(self).pending_action == old(self).pending_action,
    {
        match self.pending_keys.pop() {
            Some(_) => true,
            None => false,
        }
    }

    /// Whether a key sequence is pending.
    pub fn is_pending(&self) -> (r: bool)
        ensures
            r == (self.pending_keys@.len() > 0),
    {
        self.pending_keys.len() > 0
    }

    /// Takes the action a completed sequence triggered, leaving none.
    pub fn take_action(&mut self) -> (r: Option<TuiAction>)
        ensures
            r == old(self).pending_action,
            final(self).pending_action is None,
            final(self).active == old(self).active,
            final(self).config == old(self).config,
            final(self).pending_keys == old(self).pending_keys,
    {
        self.pending_action.take()
    }

    /// The pending keys written as `a > b > c`.
    pub fn format_path(&self) -> (r: String)
        ensures
            r@ == path_text(self.pending_keys@),
    {
        let mut s = String::new();
        let mut i: usize = 0;
        while i < self.pending_keys.len()
            invariant
                i <= self.pending_keys@.len(),
                s@ == path_text(self.pending_keys@.take(i as int)),
            decreases self.pending_keys@.len() - i,
        {
            let d = self.pending_keys[i].display();
            proof {
                let t = self.pending_keys@.take(i + 1);
                assert(t.drop_last() =~= self.pending_keys@.take(i as int));
                assert(t.last() == self.pending_keys@[i as int]);
            }
            if i > 0 {
                s.push_str(" > ");
            } else {
                assert(self.pending_keys@.take(1) =~= seq![self.pending_keys@[0]]);
            }
            s.push_str(d.as_str());
            i = i + 1;
        }
        assert(self.pending_keys@.take(self.pending_keys@.len() as int) =~= self.pending_keys@);
        s
    }

    /// The keys of the pending sequence followed by `key`: the sequence to look up in
    /// the key map for [`WhichKey::handle_key_with_node`].
    pub fn lookup_path(&self, key: Key) -> (r: Vec<Key>)
        ensures
            r@ == self.pending_keys@.push(key),
    {
        let mut r: Vec<Key> = Vec::new();
        let mut i: usize = 0;
        while i < self.pending_keys.len()
            invariant
                i <= self.pending_keys@.len(),
                r@ == self.pending_keys@.take(i as int),
            decreases self.pending_keys@.len() - i,
        {
            r.push(self.pending_keys[i]);
            i = i + 1;
            assert(r@ =~= self.pending_keys@.take(i as int));
        }
        assert(self.pending_keys@.take(self.pending_keys@.len() as int) =~= self.pending_keys@);
        r.push(key);
        r
    }

    /// Handles a key while a sequence is pending. `key` is the key pressed (`None`
    /// for a key that cannot be part of a sequence) and `node` is what the key map binds
    /// at the pending sequence followed by that key. Esc and unknown sequences dismiss
    /// the popup; Backspace drops a key (dismissing when none is left); a branch extends
    /// the sequence; a leaf completes it and records its action. Every key is consumed
    /// while a sequence is pending; otherwise keys are ignored.
    pub fn handle_key_with_node(&mut self, key: Option<Key>, node: Option<KeyNode>) -> (r: HandleKeyResult)
        ensures
            sequence_key_handled(*old(self), *final(self), key, node, r),
    {
        if !self.is_pending() {
            return HandleKeyResult::ignored();
        }
        match key {
            None => {
                self.dismiss();
                HandleKeyResult::consumed()
            },
            Some(Key::Esc) => {
                self.dismiss();
                HandleKeyResult::consumed()
            },
            Some(Key::Backspace) => {
                self.pop_key();
                if !self.is_pending() {
                    self.dismiss();
                }
                HandleKeyResult::consumed()
            },
            Some(k) => {
                match node {
                    Some(KeyNode::Leaf(action)) => {
                        self.dismiss();
                        self.pending_action = Some(action);
                    },
                    Some(KeyNode::Branch) => {
                        self.push_key(k);
                    },
                    None => {
                        self.dismiss();
                    },
                }
                HandleKeyResult::consumed()
            },
        }
    }
}

impl Default for WhichKey {
    fn default() -> (w: WhichKey)
        ensures
            !w.active,
            w.config.max_height == 10,
            w.config.position == WhichKeyPosition::BottomRight,
            w.pending_keys@.len() == 0,
            w.pending_action is None,
    {
        WhichKey::new(WhichKeyConfig::default())
    }
}

impl Component for WhichKey {
    /// Active while the help listing is shown or a sequence is pending.
    fn is_active(&self) -> (r: bool)
        ensures
            r == (self.active || self.pending_keys@.len() > 0),
    {
        self.active || self.is_pending()
    }
}

} // verus!
