use vstd::prelude::*;

use crate::action::{action_of_config, is_pane_alias, is_tab_alias, lower_of, Action};
use crate::resolver::{PaneDesc, PaneRef, TabDesc};
use crate::state::{
    after_pane_update, after_tab_update, confirm_calls, key_calls, pane_update_applies,
    well_formed, HostCall, State,
};

verus! {

/// A configuration string that is none of the pane or tab names, in any
/// case, selects quitting the session.
pub proof fn lemma_unknown_name_quits(s: Seq<char>)
    requires
        !is_pane_alias(lower_of(s)),
        !is_tab_alias(lower_of(s)),
    ensures
        action_of_config(s) == Action::QuitSession,
{
}

/// A pane name selects closing a pane and a tab name closing a tab, in any case.
pub proof fn lemma_alias_selects_action(s: Seq<char>)
    ensures
        is_pane_alias(lower_of(s)) ==> action_of_config(s) == Action::ClosePane,
        is_tab_alias(lower_of(s)) ==> action_of_config(s) == Action::CloseTab,
{
    reveal_strlit("close_pane");
    reveal_strlit("closepane");
    reveal_strlit("pane");
    reveal_strlit("close_tab");
    reveal_strlit("closetab");
    reveal_strlit("tab");
    let t = lower_of(s);
    if is_tab_alias(t) {
        assert(t.len() == 3 || t.len() == 8 || t.len() == 9);
        if t.len() == 9 {
            assert(t[6] == 't');
            assert("close_pane"@.len() == 10);
        }
        if t.len() == 8 {
            assert(t[5] == 't');
            assert("closepane"@[5] == 'p');
        }
        if t.len() == 3 {
            assert("pane"@.len() == 4);
        }
        assert(!is_pane_alias(t));
    }
}

/// Two strings that differ only in case select the same action.
pub proof fn lemma_action_ignores_case(a: Seq<char>, b: Seq<char>)
    requires
        lower_of(a) == lower_of(b),
    ensures
        action_of_config(a) == action_of_config(b),
{
}

/// Once the tab is known, no tab-list notification changes it, nor does any
/// pane manifest.
pub proof fn lemma_tab_latched(s: State, tabs: Seq<TabDesc>, manifest: Map<usize, Vec<PaneDesc>>)
    requires
        s.target_tab.is_some(),
    ensures
        after_tab_update(s, tabs) == s,
        after_pane_update(s, manifest).target_tab == s.target_tab,
{
}

/// The first pane manifest that is looked at closes the latch for good: a
/// second manifest, whatever pane it focuses, changes nothing, and neither
/// does a tab-list notification.
pub proof fn lemma_pane_latched(
    s: State,
    first: Map<usize, Vec<PaneDesc>>,
    second: Map<usize, Vec<PaneDesc>>,
    tabs: Seq<TabDesc>,
)
    requires
        pane_update_applies(s),
    ensures
        after_pane_update(s, first).pane_info_received,
        after_pane_update(after_pane_update(s, first), second) == after_pane_update(s, first),
        after_tab_update(after_pane_update(s, first), tabs) == after_pane_update(s, first),
{
}

/// A pane manifest changes nothing unless a pane is to be closed and the
/// tab is already known.
pub proof fn lemma_pane_update_needs_tab(s: State, manifest: Map<usize, Vec<PaneDesc>>)
    requires
        s.action != Action::ClosePane || s.target_tab.is_none(),
    ensures
        after_pane_update(s, manifest) == s,
{
}

/// Resolution only moves forward: a known tab or pane stays as it is
/// through any notification, and the notifications keep the state well formed.
pub proof fn lemma_resolution_monotonic(
    s: State,
    tabs: Seq<TabDesc>,
    manifest: Map<usize, Vec<PaneDesc>>,
)
    requires
        well_formed(s),
    ensures
        well_formed(after_tab_update(s, tabs)),
        well_formed(after_pane_update(s, manifest)),
        s.target_tab.is_some() ==> after_tab_update(s, tabs).target_tab == s.target_tab
            && after_pane_update(s, manifest).target_tab == s.target_tab,
        s.target_pane.is_some() ==> after_tab_update(s, tabs).target_pane == s.target_pane
            && after_pane_update(s, manifest).target_pane == s.target_pane,
        after_tab_update(s, tabs).target_tab.is_none() ==> s.target_tab.is_none(),
        after_pane_update(s, manifest).target_pane.is_none() ==> s.target_pane.is_none(),
{
}

/// The cancel key (when it is not also the confirm key) only hides the
/// overlay, whatever the action and whatever is known of the target.
pub proof fn lemma_cancel_only_hides(s: State)
    ensures
        key_calls(s, false, true) == seq![HostCall::HideSelf],
{
}

/// Whether a request closes a pane or a tab.
pub open spec fn is_close(c: HostCall) -> bool {
    c is ClosePane || c is CloseFocusedPane || c is CloseFocusedTab
}

/// Confirming a quit ends the session and closes nothing.
pub proof fn lemma_quit_closes_nothing(pane: Option<PaneRef>)
    ensures
        confirm_calls(Action::QuitSession, pane).contains(HostCall::QuitSession),
        forall|i: int|
            0 <= i < confirm_calls(Action::QuitSession, pane).len() ==> !is_close(
                #[trigger] confirm_calls(Action::QuitSession, pane)[i],
            ),
{
    assert(confirm_calls(Action::QuitSession, pane)[0] == HostCall::QuitSession);
}

/// Confirming with a known pane hides the overlay first and then closes that
/// pane by its tagged id.
pub proof fn lemma_known_pane_closed_after_hiding(p: PaneRef)
    ensures
        confirm_calls(Action::ClosePane, Some(p)) == seq![HostCall::HideSelf, HostCall::ClosePane(p)],
{
}

/// Confirming with no known pane hides the overlay and then closes whichever
/// pane has focus, never a pane by id.
pub proof fn lemma_unknown_pane_falls_back(s: State)
    requires
        s.action == Action::ClosePane,
        s.target_pane.is_none(),
    ensures
        confirm_calls(s.action, s.target_pane) == seq![HostCall::HideSelf, HostCall::CloseFocusedPane],
        forall|i: int|
            0 <= i < confirm_calls(s.action, s.target_pane).len() ==> !(#[trigger] confirm_calls(
                s.action,
                s.target_pane,
            )[i] is ClosePane),
{
    let c = confirm_calls(s.action, s.target_pane);
    assert forall|i: int| 0 <= i < c.len() implies !(#[trigger] c[i] is ClosePane) by {
        assert(i == 0 || i == 1);
    }
}

} // verus!
