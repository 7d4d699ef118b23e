use vstd::prelude::*;

use std::collections::HashMap;

verus! {

broadcast use vstd::std_specs::hash::group_hash_axioms;

/// One tab of a tab-list notification.
#[derive(Debug, Clone, Copy, PartialEq, Eq, Structural)]
pub struct TabDesc {
    /// The tab's 0-based position.
    pub position: usize,
    /// Whether the tab has focus.
    pub active: bool,
}

/// One pane of a pane-manifest notification.
#[derive(Debug, Clone, Copy, PartialEq, Eq, Structural)]
pub struct PaneDesc {
    /// The pane's id, within the id space that `is_plugin` selects.
    pub id: u32,
    /// Whether the pane has focus within its tab.
    pub is_focused: bool,
    /// Whether the pane runs a plugin rather than a terminal.
    pub is_plugin: bool,
}

/// A pane as the host names it: terminal and plugin panes have disjoint id spaces.
#[derive(Debug, Clone, Copy, PartialEq, Eq, Structural)]
pub enum PaneRef {
    Terminal(u32),
    Plugin(u32),
}

/// The position of the first focused tab of a notification, if any.
pub open spec fn focused_tab_of(tabs: Seq<TabDesc>) -> Option<usize>
    decreases tabs.len(),
{
    if tabs.len() == 0 {
        None
    } else if tabs[0].active {
        Some(tabs[0].position)
    } else {
        focused_tab_of(tabs.drop_first())
    }
}

/// The first pane of a tab that has focus and runs a terminal, if any.
pub open spec fn focused_terminal_of(panes: Seq<PaneDesc>) -> Option<PaneDesc>
    decreases panes.len(),
{
    if panes.len() == 0 {
        None
    } else if panes[0].is_focused && !panes[0].is_plugin {
        Some(panes[0])
    } else {
        focused_terminal_of(panes.drop_first())
    }
}

/// The focused terminal pane of the tab at `tab` in a pane manifest.
pub open spec fn manifest_focus(manifest: Map<usize, Vec<PaneDesc>>, tab: usize) -> Option<PaneDesc> {
    if manifest.contains_key(tab) {
        focused_terminal_of(manifest[tab]@)
    } else {
        None
    }
}

/// The tagged id of a pane.
pub open spec fn pane_ref_of(p: PaneDesc) -> PaneRef {
    if p.is_plugin {
        PaneRef::Plugin(p.id)
    } else {
        PaneRef::Terminal(p.id)
    }
}

/// Finds the focused tab of a tab-list notification.
pub fn focused_tab(tabs: &Vec<TabDesc>) -> (r: Option<usize>)
    ensures
        r == focused_tab_of(tabs@),
{
    let n = tabs.len();
    let mut i: usize = 0;
    assert(tabs@.subrange(0, n as int) == tabs@);
    while i < n
        invariant
            n == tabs@.len(),
            i <= n,
            focused_tab_of(tabs@) == focused_tab_of(tabs@.subrange(i as int, n as int)),
        decreases n - i,
    {
        assert(tabs@.subrange(i as int, n as int).drop_first() == tabs@.subrange(i + 1, n as int));
        if tabs[i].active {
            return Some(tabs[i].position);
        }
        i = i + 1;
    }
    None
}

/// Finds the first focused terminal pane of a tab.
pub fn focused_terminal(panes: &Vec<PaneDesc>) -> (r: Option<PaneDesc>)
    ensures
        r == focused_terminal_of(panes@),
{
    let n = panes.len();
    let mut i: usize = 0;
    assert(panes@.subrange(0, n as int) == panes@);
    while i < n
        invariant
            n == panes@.len(),
            i <= n,
            focused_terminal_of(panes@) == focused_terminal_of(panes@.subrange(i as int, n as int)),
        decreases n - i,
    {
        assert(panes@.subrange(i as int, n as int).drop_first() == panes@.subrange(i + 1, n as int));
        if panes[i].is_focused && !panes[i].is_plugin {
            return Some(panes[i]);
        }
        i = i + 1;
    }
    None
}

/// Finds the focused terminal pane of the tab at `tab` in a pane manifest.
pub fn focused_pane(tab: usize, manifest: &HashMap<usize, Vec<PaneDesc>>) -> (r: Option<PaneDesc>)
    ensures
        r == manifest_focus(manifest@, tab),
{
    match manifest.get(&tab) {
        Some(panes) => focused_terminal(panes),
        None => None,
    }
}

/// The tagged id of a pane.
pub fn pane_ref(p: &PaneDesc) -> (r: PaneRef)
    ensures
        r == pane_ref_of(*p),
{
    if p.is_plugin {
        PaneRef::Plugin(p.id)
    } else {
        PaneRef::Terminal(p.id)
    }
}

} // verus!
