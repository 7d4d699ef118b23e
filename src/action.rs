use vstd::prelude::*;

use crate::text::same_text;

verus! {

/// What the overlay does once the user confirms.
#[derive(Debug, Clone, Copy, PartialEq, Eq, Structural)]
pub enum Action {
    /// End the whole session.
    QuitSession,
    /// Close the pane that was focused when the overlay opened.
    ClosePane,
    /// Close the focused tab.
    CloseTab,
}

/// The lower-case form of a string, as `str::to_lowercase` computes it.
pub uninterp spec fn lower_of(s: Seq<char>) -> Seq<char>;

/// Relies on `str::to_lowercase`: the result depends on the characters alone,
/// and the empty string stays empty.
#[verifier::external_body]
fn lowercase(s: &str) -> (r: String)
    ensures
        r@ == lower_of(s@),
        s@.len() == 0 ==> r@.len() == 0,
{
    s.to_lowercase()
}

/// The lower-case spellings that select [`Action::ClosePane`].
pub open spec fn is_pane_alias(t: Seq<char>) -> bool {
    t == "close_pane"@ || t == "closepane"@ || t == "pane"@
}

/// The lower-case spellings that select [`Action::CloseTab`].
pub open spec fn is_tab_alias(t: Seq<char>) -> bool {
    t == "close_tab"@ || t == "closetab"@ || t == "tab"@
}

/// The action that a lower-case configuration word selects; anything else,
/// the quit aliases included, selects the safe default.
pub open spec fn action_of_word(t: Seq<char>) -> Action {
    if is_pane_alias(t) {
        Action::ClosePane
    } else if is_tab_alias(t) {
        Action::CloseTab
    } else {
        Action::QuitSession
    }
}

/// The action that a configuration string selects, ignoring case.
pub open spec fn action_of_config(s: Seq<char>) -> Action {
    action_of_word(lower_of(s))
}

impl Action {
    /// Quitting the session is the default action.
    pub fn default_action() -> (r: Action)
        ensures
            r == Action::QuitSession,
    {
        Action::QuitSession
    }

    /// Picks the action for a configuration word that is already lower case.
    pub fn from_lowered(t: &str) -> (r: Action)
        ensures
            r == action_of_word(t@),
    {
        if same_text(t, "close_pane") || same_text(t, "closepane") || same_text(t, "pane") {
            Action::ClosePane
        } else if same_text(t, "close_tab") || same_text(t, "closetab") || same_text(t, "tab") {
            Action::CloseTab
        } else {
            Action::QuitSession
        }
    }

    /// Picks the action for a configuration string, ignoring case; an
    /// unrecognised or empty string selects [`Action::QuitSession`].
    pub fn from_config(s: &str) -> (r: Action)
        ensures
            r == action_of_config(s@),
            s@.len() == 0 ==> r == Action::QuitSession,
    {
        proof {
            reveal_strlit("close_pane");
            reveal_strlit("closepane");
            reveal_strlit("pane");
            reveal_strlit("close_tab");
            reveal_strlit("closetab");
            reveal_strlit("tab");
        }
        let lowered = lowercase(s);
        Action::from_lowered(lowered.as_str())
    }
}

} // verus!
