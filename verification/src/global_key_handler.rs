//! Keys no focused component handled: key sequences and single-key bindings.
use vstd::prelude::*;
use crate::event::{Component, HandleKeyResult, KeyCode, KeyStatus};
use crate::tui_action::TuiAction;
use crate::which_key::{Key, KeyNode, WhichKey, WhichKeyConfig, key_of_code, sequence_key_handled};

verus! {

/// Handles keys left over by the panes and popups, with the which-key popup.
#[derive(Clone, Debug)]
pub struct GlobalKeyHandler {
    which_key: WhichKey,
}

impl GlobalKeyHandler {
    /// The state of the which-key popup.
    pub closed spec fn help(self) -> WhichKey {
        self.which_key
    }

    /// A handler whose popup is hidden with nothing pending.
    pub fn new(config: WhichKeyConfig) -> (h: GlobalKeyHandler)
        ensures
            !h.help().active,
            h.help().config == config,
            h.help().pending_keys@.len() == 0,
            h.help().pending_action is None,
    {
        GlobalKeyHandler { which_key: WhichKey::new(config) }
    }

    /// Shows or hides the help listing.
    pub fn toggle_help(&mut self)
        ensures
            final(self).help().active == !old(self).help().active,
            final(self).help().config == old(self).help().config,
            final(self).help().pending_keys == old(self).help().pending_keys,
            final(self).help().pending_action == old(self).help().pending_action,
    {
        self.which_key.toggle();
    }

    /// Hides the popup and forgets any pending sequence.
    pub fn dismiss_help(&mut self)
        ensures
            !final(self).help().active,
            final(self).help().config == old(self).help().config,
            final(self).help().pending_keys@.len() == 0,
            final(self).help().pending_action is None,
    {
        self.which_key.dismiss();
    }

    /// The which-key popup, for drawing it.
    pub fn which_key(&self) -> (r: &WhichKey)
        ensures
            *r == self.help(),
    {
        &self.which_key
    }

    /// Whether the help listing is shown.
    pub fn is_showing_help(&self) -> (r: bool)
        ensures
            r == self.help().active,
    {
        self.which_key.active
    }

    /// Whether a key sequence is pending.
    pub fn is_which_key_pending(&self) -> (r: bool)
        ensures
            r == (self.help().pending_keys@.len() > 0),
    {
        self.which_key.is_pending()
    }

    /// The keys of the pending sequence.
    pub fn pending_keys(&self) -> (r: &[Key])
        ensures
            r@ == self.help().pending_keys@,
    {
        self.which_key.pending_keys.as_slice()
    }

    /// Takes the action a completed sequence triggered.
    pub fn take_action(&mut self) -> (r: Option<TuiAction>)
        ensures
            r == old(self).help().pending_action,
            final(self).help().pending_action is None,
            final(self).help().active == old(self).help().active,
            final(self).help().pending_keys == old(self).help().pending_keys,
            final(self).help().config == old(self).help().config,
    {
        self.which_key.take_action()
    }

    /// Handles a key with the key map's answers for it: `node` is what the map binds
    /// at the pending sequence followed by the key, `is_prefix` whether the key starts a
    /// sequence, and `action` the single-key binding for it in the focused pane.
    /// A pending sequence takes the key first; otherwise a shown help listing is
    /// hidden, a prefix key starts a sequence, and a bound key yields its action.
    pub fn handle_key_with_lookups(
        &mut self,
        code: KeyCode,
        node: Option<KeyNode>,
        is_prefix: bool,
        action: Option<TuiAction>,
    ) -> (r: HandleKeyResult)
        ensures
            old(self).help().pending_keys@.len() > 0 ==> sequence_key_handled(old(self).help(), final(self).help(),
                key_of_code(code), node, r),
            old(self).help().pending_keys@.len() == 0 ==> final(self).help().config == old(self).help().config
                && final(self).help().pending_action == if old(self).help().active {
                    None
                } else {
                    old(self).help().pending_action
                },
            old(self).help().pending_keys@.len() == 0 ==> match key_of_code(code) {
                None => r.status == KeyStatus::Ignored && r.actions@.len() == 0
                    && !final(self).help().active
                    && final(self).help().pending_keys@.len() == 0,
                Some(k) => if is_prefix {
                    r.status == KeyStatus::Consumed && r.actions@.len() == 0
                        && final(self).help().active
                        && final(self).help().pending_keys@ == seq![k]
                } else {
                    !final(self).help().active && final(self).help().pending_keys@.len() == 0
                        && match action {
                        Some(a) => r.status == KeyStatus::Consumed && r.actions@ == seq![a],
                        None => r.status == KeyStatus::Ignored && r.actions@.len() == 0,
                    }
                },
            },
    {
        if self.which_key.is_pending() {
            return self.which_key.handle_key_with_node(Key::from_keycode(code), node);
        }
        if self.which_key.active {
            self.which_key.dismiss();
        }
        let key = match Key::from_keycode(code) {
            Some(k) => k,
            None => {
                return HandleKeyResult::ignored();
            },
        };
        if is_prefix {
            self.which_key.push_key(key);
            assert(self.which_key.pending_keys@ =~= seq![key]);
            return HandleKeyResult::consumed();
        }
        match action {
            Some(a) => HandleKeyResult::with_action(a),
            None => HandleKeyResult::ignored(),
        }
    }
}

impl Component for GlobalKeyHandler {
    fn is_active(&self) -> (r: bool)
        ensures
            r,
    {
        true
    }
}

} // verus!
