use std::collections::BTreeSet;
use std::collections::HashMap;

use zellij_confirm::action::Action;
use zellij_confirm::render::{compose_layout, decimal_text, target_text};
use zellij_confirm::resolver::{focused_pane, focused_tab, PaneDesc, PaneRef, TabDesc};
use zellij_confirm::state::{HostCall, OverlayConfig, State};
use zellij_tile::prelude::{BareKey, KeyModifier, KeyWithModifier};

fn tab(position: usize, active: bool) -> TabDesc {
    TabDesc { position, active }
}

fn pane(id: u32, is_focused: bool, is_plugin: bool) -> PaneDesc {
    PaneDesc { id, is_focused, is_plugin }
}

fn config(confirm: Option<&str>, cancel: Option<&str>, action: Option<&str>) -> OverlayConfig {
    OverlayConfig {
        confirm_key: confirm.map(|s| s.to_string()),
        cancel_key: cancel.map(|s| s.to_string()),
        action: action.map(|s| s.to_string()),
    }
}

fn enter() -> KeyWithModifier {
    KeyWithModifier::new(BareKey::Enter)
}

fn esc() -> KeyWithModifier {
    KeyWithModifier::new(BareKey::Esc)
}

fn state_with(action: &str) -> State {
    let mut s = State::default();
    s.load(&config(None, None, Some(action)));
    s
}

#[test]
fn unknown_or_empty_action_names_quit() {
    for s in ["", "quit", "quit_session", "session", "close", "panes", "tabs", "close pane", "x"] {
        assert_eq!(Action::from_config(s), Action::QuitSession, "{}", s);
    }
}

#[test]
fn action_names_ignore_case() {
    for s in ["close_pane", "closepane", "pane", "PANE", "Close_Pane", "ClosePane"] {
        assert_eq!(Action::from_config(s), Action::ClosePane, "{}", s);
    }
    for s in ["close_tab", "closetab", "tab", "TAB", "CLOSE_TAB", "CloseTab"] {
        assert_eq!(Action::from_config(s), Action::CloseTab, "{}", s);
    }
}

#[test]
fn action_texts() {
    assert_eq!(Action::QuitSession.action_name(), "Quit Session");
    assert_eq!(Action::ClosePane.action_name(), "Close Pane");
    assert_eq!(Action::CloseTab.action_name(), "Close Tab");
    assert_eq!(
        Action::QuitSession.confirmation_text(),
        "Are you sure you want to quit this session?"
    );
    assert_eq!(
        Action::ClosePane.confirmation_text(),
        "Are you sure you want to close this pane?"
    );
    assert_eq!(Action::CloseTab.confirmation_text(), "Are you sure you want to close this tab?");
}

#[test]
fn default_state() {
    let s = State::default();
    assert_eq!(s.action, Action::QuitSession);
    assert_eq!(s.target_tab, None);
    assert_eq!(s.target_pane, None);
    assert!(!s.pane_info_received);
    assert!(s.confirm_key == enter());
    assert!(s.cancel_key == esc());
}

#[test]
fn focused_tab_is_the_first_active_one() {
    assert_eq!(focused_tab(&vec![]), None);
    assert_eq!(focused_tab(&vec![tab(0, false), tab(1, false)]), None);
    assert_eq!(focused_tab(&vec![tab(0, false), tab(2, true), tab(4, true)]), Some(2));
}

#[test]
fn focused_pane_skips_plugins_and_other_tabs() {
    let mut m: HashMap<usize, Vec<PaneDesc>> = HashMap::new();
    m.insert(0, vec![pane(1, true, false)]);
    m.insert(1, vec![pane(5, true, true), pane(6, false, false), pane(8, true, false)]);
    assert_eq!(focused_pane(1, &m), Some(pane(8, true, false)));
    assert_eq!(focused_pane(0, &m), Some(pane(1, true, false)));
    assert_eq!(focused_pane(3, &m), None);
}

#[test]
fn tab_latches_on_first_focused_notification() {
    let mut s = state_with("close_tab");
    s.on_tab_update(&vec![]);
    assert_eq!(s.target_tab, None);
    s.on_tab_update(&vec![tab(0, false), tab(1, false)]);
    assert_eq!(s.target_tab, None);
    s.on_tab_update(&vec![tab(0, false), tab(2, true)]);
    assert_eq!(s.target_tab, Some(2));
    s.on_tab_update(&vec![tab(0, true), tab(2, false)]);
    assert_eq!(s.target_tab, Some(2));
}

#[test]
fn pane_latches_once() {
    let mut s = state_with("pane");
    s.on_tab_update(&vec![tab(0, true)]);
    let mut first: HashMap<usize, Vec<PaneDesc>> = HashMap::new();
    first.insert(0, vec![pane(2, false, false), pane(3, true, false)]);
    s.on_pane_update(&first);
    assert!(s.pane_info_received);
    assert_eq!(s.target_pane, Some(PaneRef::Terminal(3)));
    let mut second: HashMap<usize, Vec<PaneDesc>> = HashMap::new();
    second.insert(0, vec![pane(9, true, false)]);
    s.on_pane_update(&second);
    assert!(s.pane_info_received);
    assert_eq!(s.target_pane, Some(PaneRef::Terminal(3)));
}

#[test]
fn pane_latch_closes_even_without_a_focused_pane() {
    let mut s = state_with("close_pane");
    s.on_tab_update(&vec![tab(1, true)]);
    let mut first: HashMap<usize, Vec<PaneDesc>> = HashMap::new();
    first.insert(1, vec![pane(4, false, false), pane(5, true, true)]);
    s.on_pane_update(&first);
    assert!(s.pane_info_received);
    assert_eq!(s.target_pane, None);
    let mut second: HashMap<usize, Vec<PaneDesc>> = HashMap::new();
    second.insert(1, vec![pane(4, true, false)]);
    s.on_pane_update(&second);
    assert_eq!(s.target_pane, None);
}

#[test]
fn pane_update_waits_for_the_tab() {
    let mut s = state_with("close_pane");
    let mut m: HashMap<usize, Vec<PaneDesc>> = HashMap::new();
    m.insert(0, vec![pane(3, true, false)]);
    s.on_pane_update(&m);
    assert!(!s.pane_info_received);
    assert_eq!(s.target_pane, None);
    s.on_tab_update(&vec![tab(0, true)]);
    s.on_pane_update(&m);
    assert_eq!(s.target_pane, Some(PaneRef::Terminal(3)));
}

#[test]
fn pane_update_ignored_for_other_actions() {
    for action in ["quit", "close_tab"] {
        let mut s = state_with(action);
        s.on_tab_update(&vec![tab(0, true)]);
        let mut m: HashMap<usize, Vec<PaneDesc>> = HashMap::new();
        m.insert(0, vec![pane(3, true, false)]);
        s.on_pane_update(&m);
        assert!(!s.pane_info_received);
        assert_eq!(s.target_pane, None);
        assert_eq!(s.target_tab, Some(0));
    }
}

#[test]
fn cancel_only_hides() {
    for action in ["quit", "pane", "tab"] {
        let mut s = state_with(action);
        assert_eq!(s.on_key(&esc()), vec![HostCall::HideSelf]);
        s.on_tab_update(&vec![tab(0, true)]);
        let mut m: HashMap<usize, Vec<PaneDesc>> = HashMap::new();
        m.insert(0, vec![pane(3, true, false)]);
        s.on_pane_update(&m);
        assert_eq!(s.on_key(&KeyWithModifier::new(BareKey::Char('x'))), vec![]);
        assert_eq!(s.on_key(&esc()), vec![HostCall::HideSelf]);
    }
}

#[test]
fn other_keys_do_nothing() {
    let s = state_with("pane");
    assert_eq!(s.on_key(&KeyWithModifier::new(BareKey::Char('y'))), vec![]);
    assert_eq!(s.on_key(&KeyWithModifier::new(BareKey::Tab)), vec![]);
}

#[test]
fn confirm_quit_terminates_session() {
    let s = State::default();
    let calls = s.on_key(&enter());
    assert_eq!(calls, vec![HostCall::QuitSession]);
    assert!(!calls.iter().any(|c| matches!(
        c,
        HostCall::ClosePane(_) | HostCall::CloseFocusedPane | HostCall::CloseFocusedTab
    )));
}

#[test]
fn confirm_known_pane_hides_then_closes_it() {
    let mut s = state_with("close_pane");
    s.target_tab = Some(0);
    s.target_pane = Some(PaneRef::Terminal(7));
    s.pane_info_received = true;
    assert_eq!(
        s.on_key(&enter()),
        vec![HostCall::HideSelf, HostCall::ClosePane(PaneRef::Terminal(7))]
    );
    s.target_pane = Some(PaneRef::Plugin(7));
    assert_eq!(
        s.execute_action(),
        vec![HostCall::HideSelf, HostCall::ClosePane(PaneRef::Plugin(7))]
    );
}

#[test]
fn confirm_unknown_pane_falls_back() {
    let s = state_with("close_pane");
    assert_eq!(s.on_key(&enter()), vec![HostCall::HideSelf, HostCall::CloseFocusedPane]);
}

#[test]
fn respond_decides_by_key_roles() {
    let s = state_with("tab");
    assert_eq!(s.respond(true, false), vec![HostCall::HideSelf, HostCall::CloseFocusedTab]);
    assert_eq!(s.respond(true, true), vec![HostCall::HideSelf, HostCall::CloseFocusedTab]);
    assert_eq!(s.respond(false, true), vec![HostCall::HideSelf]);
    assert_eq!(s.respond(false, false), vec![]);
}

#[test]
fn close_tab_end_to_end() {
    let mut s = State::default();
    s.load(&config(None, None, Some("close_tab")));
    s.on_tab_update(&vec![tab(0, false), tab(2, true)]);
    let screen = s.layout(20, 80);
    assert_eq!(screen.len(), 4);
    assert_eq!(screen[0].text, "[ Close Tab ]");
    assert_eq!((screen[0].x, screen[0].y), (33, 7));
    assert_eq!(screen[1].text, "Are you sure you want to close this tab?");
    assert_eq!((screen[1].x, screen[1].y), (20, 9));
    assert_eq!(screen[2].text, "Target: Tab #3");
    assert_eq!((screen[2].x, screen[2].y), (33, 11));
    assert_eq!(s.on_key(&enter()), vec![HostCall::HideSelf, HostCall::CloseFocusedTab]);
}

#[test]
fn no_configuration_quits_on_enter() {
    let mut s = State::default();
    s.load(&config(None, None, None));
    assert_eq!(s.on_key(&enter()), vec![HostCall::QuitSession]);
}

#[test]
fn configured_keys_replace_defaults() {
    let mut s = State::default();
    s.load(&config(Some("Ctrl c"), Some("q"), Some("tab")));
    let mut mods = BTreeSet::new();
    mods.insert(KeyModifier::Ctrl);
    let ctrl_c = KeyWithModifier::new_with_modifiers(BareKey::Char('c'), mods);
    assert_eq!(s.on_key(&enter()), vec![]);
    assert_eq!(s.on_key(&esc()), vec![]);
    assert_eq!(s.on_key(&ctrl_c), vec![HostCall::HideSelf, HostCall::CloseFocusedTab]);
    assert_eq!(
        s.on_key(&KeyWithModifier::new(BareKey::Char('q'))),
        vec![HostCall::HideSelf]
    );
}

#[test]
fn bad_keys_keep_defaults() {
    let mut s = State::default();
    s.load(&config(Some("Hyper zz"), Some(""), None));
    assert!(s.confirm_key == enter());
    assert!(s.cancel_key == esc());
    assert_eq!(s.on_key(&enter()), vec![HostCall::QuitSession]);
    assert_eq!(s.on_key(&esc()), vec![HostCall::HideSelf]);
}

#[test]
fn decimal_numbers() {
    assert_eq!(decimal_text(0), "0");
    assert_eq!(decimal_text(7), "7");
    assert_eq!(decimal_text(10), "10");
    assert_eq!(decimal_text(4096), "4096");
    assert_eq!(decimal_text(u64::MAX as u128 + 1), "18446744073709551616");
}

#[test]
fn target_lines() {
    assert_eq!(target_text(Action::QuitSession, None, Some(1)), "");
    assert_eq!(target_text(Action::ClosePane, None, Some(1)), "Target: (detecting...)");
    assert_eq!(
        target_text(Action::ClosePane, Some(PaneRef::Terminal(12)), Some(1)),
        "Target: Terminal pane #12"
    );
    assert_eq!(
        target_text(Action::ClosePane, Some(PaneRef::Plugin(0)), None),
        "Target: Plugin pane #0"
    );
    assert_eq!(target_text(Action::CloseTab, None, None), "Target: (detecting...)");
    assert_eq!(target_text(Action::CloseTab, None, Some(0)), "Target: Tab #1");
    assert_eq!(
        target_text(Action::CloseTab, None, Some(usize::MAX)),
        decimal_text(usize::MAX as u128 + 1)
            .chars()
            .fold("Target: Tab #".to_string(), |mut acc, c| {
                acc.push(c);
                acc
            })
    );
}

#[test]
fn quit_layout_has_no_target_line() {
    let s = State::default();
    let screen = s.layout(20, 80);
    assert_eq!(screen.len(), 3);
    assert_eq!(screen[0].text, "[ Quit Session ]");
    assert_eq!((screen[0].x, screen[0].y), (32, 7));
    assert_eq!(screen[0].colors.len(), 1);
    assert_eq!((screen[0].colors[0].color, screen[0].colors[0].start, screen[0].colors[0].end), (2, 0, 16));
    assert_eq!((screen[1].x, screen[1].y), (18, 9));
    assert!(screen[1].colors.is_empty());
    assert_eq!(screen[2].text, "Help: <ENTER> - Confirm, <ESC> - Cancel");
    assert_eq!((screen[2].x, screen[2].y), (20, 19));
    let spans: Vec<(usize, usize, usize)> =
        screen[2].colors.iter().map(|c| (c.color, c.start, c.end)).collect();
    assert_eq!(spans, vec![(3, 6, 13), (3, 25, 30)]);
}

#[test]
fn layout_on_a_tiny_screen() {
    let screen = compose_layout(Action::ClosePane, None, None, "a", "b", 0, 5);
    assert_eq!(screen.len(), 4);
    for p in &screen {
        assert_eq!(p.y, if p.text.starts_with("Target") { 1 } else { 0 });
        assert_eq!(p.x, 0);
    }
    let target = &screen[2];
    assert_eq!(target.text, "Target: (detecting...)");
    assert_eq!((target.colors[0].color, target.colors[0].start, target.colors[0].end), (1, 0, 7));
}

#[test]
fn layout_centres_in_wide_screen() {
    let screen = compose_layout(Action::ClosePane, Some(PaneRef::Terminal(5)), Some(0), "x", "yy", 10, 100);
    assert_eq!(screen[2].text, "Target: Terminal pane #5");
    assert_eq!((screen[2].x, screen[2].y), (38, 6));
    assert_eq!(screen[3].text, "Help: <x> - Confirm, <yy> - Cancel");
    assert_eq!((screen[3].x, screen[3].y), (33, 9));
    assert_eq!((screen[0].y, screen[1].y), (2, 4));
}

#[test]
fn letter_keys_replace_defaults() {
    let mut s = State::default();
    s.load(&config(Some("y"), Some("n"), None));
    assert!(s.confirm_key == KeyWithModifier::new(BareKey::Char('y')));
    assert!(s.cancel_key == KeyWithModifier::new(BareKey::Char('n')));
    assert_eq!(s.action, Action::QuitSession);
    assert_eq!(s.on_key(&KeyWithModifier::new(BareKey::Char('y'))), vec![HostCall::QuitSession]);
    assert_eq!(s.on_key(&KeyWithModifier::new(BareKey::Char('n'))), vec![HostCall::HideSelf]);
    assert_eq!(s.on_key(&enter()), vec![]);
}
