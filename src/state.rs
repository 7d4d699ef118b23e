use vstd::prelude::*;

use std::collections::HashMap;

use zellij_tile::prelude::{BareKey, KeyWithModifier};

use crate::action::{action_of_config, Action};
use crate::keys::{
    default_cancel_key, default_confirm_key, key_of, key_parses, keys_equal, keys_match, parse_key,
    parsed_key,
};
use crate::resolver::{
    focused_pane, focused_tab, focused_tab_of, manifest_focus, pane_ref, pane_ref_of, PaneDesc,
    PaneRef, TabDesc,
};

verus! {

/// A request the overlay makes of the host, in the order it makes them.
#[derive(Debug, Clone, Copy, PartialEq, Eq, Structural)]
pub enum HostCall {
    /// End the whole session.
    QuitSession,
    /// Hide the overlay.
    HideSelf,
    /// Close the pane with this tagged id.
    ClosePane(PaneRef),
    /// Close whichever pane has focus (used when no target pane is known).
    CloseFocusedPane,
    /// Close whichever tab has focus.
    CloseFocusedTab,
}

/// The settings the host hands over once, at load.
pub struct OverlayConfig {
    /// The key that confirms, in the host's key grammar.
    pub confirm_key: Option<String>,
    /// The key that cancels, in the host's key grammar.
    pub cancel_key: Option<String>,
    /// The action to confirm, by one of its names.
    pub action: Option<String>,
}

/// The overlay: its keys, its action, and what it has learned of its target.
pub struct State {
    pub confirm_key: KeyWithModifier,
    pub cancel_key: KeyWithModifier,
    pub action: Action,
    /// The pane that had focus before the overlay opened (for closing a pane).
    pub target_pane: Option<PaneRef>,
    /// The tab that had focus before the overlay opened.
    pub target_tab: Option<usize>,
    /// Set by the first pane manifest that was looked at; later ones are ignored.
    pub pane_info_received: bool,
}

/// A target pane is only ever learned from a pane manifest read while
/// closing a pane, once the tab is known.
pub open spec fn well_formed(s: State) -> bool {
    s.target_pane.is_some() ==> (s.pane_info_received && s.target_tab.is_some()
        && s.action == Action::ClosePane)
}

/// The state after a tab-list notification: the first focused tab is latched.
pub open spec fn after_tab_update(s: State, tabs: Seq<TabDesc>) -> State {
    if s.target_tab.is_none() && focused_tab_of(tabs).is_some() {
        State { target_tab: focused_tab_of(tabs), ..s }
    } else {
        s
    }
}

/// Whether a pane manifest is looked at: only while closing a pane, only
/// once, and only once the tab is known.
pub open spec fn pane_update_applies(s: State) -> bool {
    s.action == Action::ClosePane && !s.pane_info_received && s.target_tab.is_some()
}

/// The state after a pane-manifest notification.
pub open spec fn after_pane_update(s: State, manifest: Map<usize, Vec<PaneDesc>>) -> State {
    if pane_update_applies(s) {
        State {
            target_pane: match manifest_focus(manifest, s.target_tab.unwrap()) {
                Some(p) => Some(pane_ref_of(p)),
                None => s.target_pane,
            },
            pane_info_received: true,
            ..s
        }
    } else {
        s
    }
}

/// What confirming does, given the action and the target pane.
pub open spec fn confirm_calls(action: Action, pane: Option<PaneRef>) -> Seq<HostCall> {
    match action {
        Action::QuitSession => seq![HostCall::QuitSession],
        Action::ClosePane => match pane {
            Some(p) => seq![HostCall::HideSelf, HostCall::ClosePane(p)],
            None => seq![HostCall::HideSelf, HostCall::CloseFocusedPane],
        },
        Action::CloseTab => seq![HostCall::HideSelf, HostCall::CloseFocusedTab],
    }
}

/// What a key press does, given whether it is the confirm key and whether it
/// is the cancel key: confirming wins, cancelling only hides, any other key
/// does nothing.
pub open spec fn key_calls(s: State, is_confirm: bool, is_cancel: bool) -> Seq<HostCall> {
    if is_confirm {
        confirm_calls(s.action, s.target_pane)
    } else if is_cancel {
        seq![HostCall::HideSelf]
    } else {
        seq![]
    }
}

impl Default for State {
    fn default() -> (r: State)
        ensures
            r.confirm_key == key_of(BareKey::Enter),
            r.cancel_key == key_of(BareKey::Esc),
            r.action == Action::QuitSession,
            r.target_pane.is_none(),
            r.target_tab.is_none(),
            !r.pane_info_received,
    {
        State {
            confirm_key: default_confirm_key(),
            cancel_key: default_cancel_key(),
            action: Action::default_action(),
            target_pane: None,
            target_tab: None,
            pane_info_received: false,
        }
    }
}

impl State {
    /// Applies the settings: a key that does not parse keeps its current
    /// value, and an action name selects its action ignoring case.
    pub fn load(&mut self, config: &OverlayConfig)
        ensures
            final(self).action == match config.action {
                Some(a) => action_of_config(a@),
                None => old(self).action,
            },
            final(self).confirm_key == match config.confirm_key {
                Some(k) => if key_parses(k@) {
                    parsed_key(k@)
                } else {
                    old(self).confirm_key
                },
                None => old(self).confirm_key,
            },
            final(self).cancel_key == match config.cancel_key {
                Some(k) => if key_parses(k@) {
                    parsed_key(k@)
                } else {
                    old(self).cancel_key
                },
                None => old(self).cancel_key,
            },
            final(self).target_pane == old(self).target_pane,
            final(self).target_tab == old(self).target_tab,
            final(self).pane_info_received == old(self).pane_info_received,
    {
        if let Some(k) = &config.confirm_key {
            if let Some(key) = parse_key(k.as_str()) {
                self.confirm_key = key;
            }
        }
        if let Some(k) = &config.cancel_key {
            if let Some(key) = parse_key(k.as_str()) {
                self.cancel_key = key;
            }
        }
        if let Some(a) = &config.action {
            self.action = Action::from_config(a.as_str());
        }
    }

    /// Takes in a tab-list notification: latches the focused tab the first
    /// time one is named, and ignores every later notification.
    pub fn on_tab_update(&mut self, tabs: &Vec<TabDesc>)
        ensures
            *final(self) == after_tab_update(*old(self), tabs@),
    {
        if self.target_tab.is_none() {
            if let Some(position) = focused_tab(tabs) {
                self.target_tab = Some(position);
            }
        }
    }

    /// Takes in a pane-manifest notification: while closing a pane, the first
    /// one that arrives after the tab is known fixes the target pane (if the
    /// tab has a focused terminal pane) and closes the latch.
    pub fn on_pane_update(&mut self, manifest: &HashMap<usize, Vec<PaneDesc>>)
        ensures
            *final(self) == after_pane_update(*old(self), manifest@),
    {
        if !self.pane_info_received && self.action == Action::ClosePane {
            if let Some(tab) = self.target_tab {
                if let Some(p) = focused_pane(tab, manifest) {
                    self.target_pane = Some(pane_ref(&p));
                }
                self.pane_info_received = true;
            }
        }
    }

    /// The requests that confirming makes, in order.
    pub fn execute_action(&self) -> (r: Vec<HostCall>)
        ensures
            r@ == confirm_calls(self.action, self.target_pane),
    {
        match self.action {
            Action::QuitSession => vec![HostCall::QuitSession],
            Action::ClosePane => match self.target_pane {
                Some(p) => vec![HostCall::HideSelf, HostCall::ClosePane(p)],
                None => vec![HostCall::HideSelf, HostCall::CloseFocusedPane],
            },
            Action::CloseTab => vec![HostCall::HideSelf, HostCall::CloseFocusedTab],
        }
    }

    /// The requests a key press makes, once it is known whether it matches
    /// the confirm key and the cancel key.
    pub fn respond(&self, is_confirm: bool, is_cancel: bool) -> (r: Vec<HostCall>)
        ensures
            r@ == key_calls(*self, is_confirm, is_cancel),
    {
        if is_confirm {
            self.execute_action()
        } else if is_cancel {
            vec![HostCall::HideSelf]
        } else {
            Vec::new()
        }
    }

    /// The requests a key press makes: confirming if it is the confirm key,
    /// hiding if it is only the cancel key, and nothing otherwise.
    pub fn on_key(&self, key: &KeyWithModifier) -> (r: Vec<HostCall>)
        ensures
            r@ == key_calls(*self, keys_equal(self.confirm_key, *key), keys_equal(self.cancel_key, *key)),
            *key == self.confirm_key ==> r@ == confirm_calls(self.action, self.target_pane),
    {
        if keys_match(&self.confirm_key, key) {
            self.respond(true, false)
        } else {
            let is_cancel = keys_match(&self.cancel_key, key);
            self.respond(false, is_cancel)
        }
    }
}

} // verus!
