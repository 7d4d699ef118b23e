use vstd::prelude::*;
use vstd::string::*;

use crate::action::Action;
use crate::keys::{key_label, label_of};
use crate::resolver::PaneRef;
use crate::state::State;

verus! {

/// A colour applied to the characters `start..end` of a text fragment.
#[derive(Debug, Clone, Copy, PartialEq, Eq, Structural)]
pub struct ColorSpan {
    pub color: usize,
    pub start: usize,
    pub end: usize,
}

/// A text fragment placed at column `x` and row `y`.
pub struct Placed {
    pub text: String,
    pub x: usize,
    pub y: usize,
    pub colors: Vec<ColorSpan>,
}

/// The title of an action.
pub open spec fn action_name_of(a: Action) -> Seq<char> {
    match a {
        Action::QuitSession => "Quit Session"@,
        Action::ClosePane => "Close Pane"@,
        Action::CloseTab => "Close Tab"@,
    }
}

/// The question an action asks.
pub open spec fn confirmation_text_of(a: Action) -> Seq<char> {
    match a {
        Action::QuitSession => "Are you sure you want to quit this session?"@,
        Action::ClosePane => "Are you sure you want to close this pane?"@,
        Action::CloseTab => "Are you sure you want to close this tab?"@,
    }
}

/// The character of a decimal digit.
pub open spec fn digit_char(d: nat) -> char {
    if d == 0 {
        '0'
    } else if d == 1 {
        '1'
    } else if d == 2 {
        '2'
    } else if d == 3 {
        '3'
    } else if d == 4 {
        '4'
    } else if d == 5 {
        '5'
    } else if d == 6 {
        '6'
    } else if d == 7 {
        '7'
    } else if d == 8 {
        '8'
    } else {
        '9'
    }
}

/// A number written in decimal, without leading zeros.
pub open spec fn decimal_of(n: nat) -> Seq<char>
    decreases n,
{
    if n < 10 {
        seq![digit_char(n)]
    } else {
        decimal_of(n / 10).push(digit_char(n % 10))
    }
}

/// The title line.
pub open spec fn title_of(a: Action) -> Seq<char> {
    "[ "@ + action_name_of(a) + " ]"@
}

/// The target line: the pane or tab that will be closed, "(detecting...)"
/// while it is not known, and nothing when quitting the session. Tabs are
/// shown counting from 1.
pub open spec fn target_text_of(a: Action, pane: Option<PaneRef>, tab: Option<usize>) -> Seq<char> {
    match a {
        Action::ClosePane => match pane {
            Some(PaneRef::Terminal(id)) => "Target: Terminal pane #"@ + decimal_of(id as nat),
            Some(PaneRef::Plugin(id)) => "Target: Plugin pane #"@ + decimal_of(id as nat),
            None => "Target: (detecting...)"@,
        },
        Action::CloseTab => match tab {
            Some(t) => "Target: Tab #"@ + decimal_of(t as nat + 1),
            None => "Target: (detecting...)"@,
        },
        Action::QuitSession => Seq::empty(),
    }
}

/// The help line, naming the confirm key and the cancel key.
pub open spec fn help_of(confirm: Seq<char>, cancel: Seq<char>) -> Seq<char> {
    "Help: <"@ + confirm + "> - Confirm, <"@ + cancel + "> - Cancel"@
}

/// The column at which a text of `len` characters is centred.
pub open spec fn centred(cols: usize, len: nat) -> usize {
    if len <= cols {
        ((cols - len) / 2) as usize
    } else {
        0
    }
}

/// The row `k` lines above the middle, or the top row on a short screen.
pub open spec fn above_middle(rows: usize, k: usize) -> usize {
    if rows / 2 >= k {
        (rows / 2 - k) as usize
    } else {
        0
    }
}

/// A sum that stops at the largest `usize`.
pub open spec fn capped(n: nat) -> usize {
    if n > usize::MAX {
        usize::MAX
    } else {
        n as usize
    }
}

/// Whether a fragment holds this text at this place, with these colours.
pub open spec fn placed_as(p: Placed, text: Seq<char>, x: usize, y: usize, colors: Seq<ColorSpan>) -> bool {
    p.text@ == text && p.x == x && p.y == y && p.colors@ == colors
}

/// The screen: title, question, target line (when there is one) and help
/// line, each centred; the colours mark the title, the word "Target:" and
/// the two key names.
pub open spec fn screen_is(
    r: Seq<Placed>,
    a: Action,
    pane: Option<PaneRef>,
    tab: Option<usize>,
    confirm: Seq<char>,
    cancel: Seq<char>,
    rows: usize,
    cols: usize,
) -> bool {
    let title = title_of(a);
    let question = confirmation_text_of(a);
    let target = target_text_of(a, pane, tab);
    let help = help_of(confirm, cancel);
    let help_colors = seq![
        ColorSpan { color: 3, start: 6, end: capped(8 + confirm.len()) },
        ColorSpan {
            color: 3,
            start: capped(20 + confirm.len()),
            end: capped(22 + confirm.len() + cancel.len()),
        },
    ];
    let help_row: usize = if rows >= 1 { (rows - 1) as usize } else { 0 };
    &&& placed_as(
        r[0],
        title,
        centred(cols, title.len()),
        above_middle(rows, 3),
        seq![ColorSpan { color: 2, start: 0, end: title.len() as usize }],
    )
    &&& placed_as(r[1], question, centred(cols, question.len()), above_middle(rows, 1), seq![])
    &&& if target.len() == 0 {
        &&& r.len() == 3
        &&& placed_as(r[2], help, centred(cols, help.len()), help_row, help_colors)
    } else {
        &&& r.len() == 4
        &&& placed_as(
            r[2],
            target,
            centred(cols, target.len()),
            capped(rows as nat / 2 + 1),
            seq![ColorSpan { color: 1, start: 0, end: 7 }],
        )
        &&& placed_as(r[3], help, centred(cols, help.len()), help_row, help_colors)
    }
}

fn capped_add(a: usize, b: usize) -> (r: usize)
    ensures
        r == capped(a as nat + b as nat),
{
    if a > usize::MAX - b {
        usize::MAX
    } else {
        a + b
    }
}

fn centre(cols: usize, len: usize) -> (r: usize)
    ensures
        r == centred(cols, len as nat),
{
    if len <= cols {
        (cols - len) / 2
    } else {
        0
    }
}

fn rows_above_middle(rows: usize, k: usize) -> (r: usize)
    ensures
        r == above_middle(rows, k),
{
    if rows / 2 >= k {
        rows / 2 - k
    } else {
        0
    }
}

fn digit_text(d: u128) -> (r: &'static str)
    requires
        d < 10,
    ensures
        r@ == seq![digit_char(d as nat)],
{
    proof {
        reveal_strlit("0");
        reveal_strlit("1");
        reveal_strlit("2");
        reveal_strlit("3");
        reveal_strlit("4");
        reveal_strlit("5");
        reveal_strlit("6");
        reveal_strlit("7");
        reveal_strlit("8");
        reveal_strlit("9");
    }
    if d == 0 {
        "0"
    } else if d == 1 {
        "1"
    } else if d == 2 {
        "2"
    } else if d == 3 {
        "3"
    } else if d == 4 {
        "4"
    } else if d == 5 {
        "5"
    } else if d == 6 {
        "6"
    } else if d == 7 {
        "7"
    } else if d == 8 {
        "8"
    } else {
        "9"
    }
}

/// Writes a number in decimal.
pub fn decimal_text(n: u128) -> (r: String)
    ensures
        r@ == decimal_of(n as nat),
    decreases n,
{
    if n < 10 {
        String::from_str(digit_text(n))
    } else {
        let mut s = decimal_text(n / 10);
        s.append(digit_text(n % 10));
        s
    }
}

impl Action {
    /// The question this action asks.
    pub fn confirmation_text(&self) -> (r: &'static str)
        ensures
            r@ == confirmation_text_of(*self),
    {
        match self {
            Action::QuitSession => "Are you sure you want to quit this session?",
            Action::ClosePane => "Are you sure you want to close this pane?",
            Action::CloseTab => "Are you sure you want to close this tab?",
        }
    }

    /// The title of this action.
    pub fn action_name(&self) -> (r: &'static str)
        ensures
            r@ == action_name_of(*self),
    {
        match self {
            Action::QuitSession => "Quit Session",
            Action::ClosePane => "Close Pane",
            Action::CloseTab => "Close Tab",
        }
    }
}

/// The target line for an action and what is known of its target.
pub fn target_text(a: Action, pane: Option<PaneRef>, tab: Option<usize>) -> (r: String)
    ensures
        r@ == target_text_of(a, pane, tab),
{
    match a {
        Action::ClosePane => match pane {
            Some(PaneRef::Terminal(id)) => {
                String::from_str("Target: Terminal pane #").concat(decimal_text(id as u128).as_str())
            },
            Some(PaneRef::Plugin(id)) => {
                String::from_str("Target: Plugin pane #").concat(decimal_text(id as u128).as_str())
            },
            None => String::from_str("Target: (detecting...)"),
        },
        Action::CloseTab => match tab {
            Some(t) => String::from_str("Target: Tab #").concat(
                decimal_text(t as u128 + 1).as_str(),
            ),
            None => String::from_str("Target: (detecting...)"),
        },
        Action::QuitSession => String::new(),
    }
}

/// Lays out the screen for an action, what is known of its target, and the
/// names of the two keys.
pub fn compose_layout(
    a: Action,
    pane: Option<PaneRef>,
    tab: Option<usize>,
    confirm: &str,
    cancel: &str,
    rows: usize,
    cols: usize,
) -> (r: Vec<Placed>)
    ensures
        screen_is(r@, a, pane, tab, confirm@, cancel@, rows, cols),
{
    let mut out: Vec<Placed> = Vec::new();

    let title = String::from_str("[ ").concat(a.action_name()).concat(" ]");
    let ghost help_colors = seq![
        ColorSpan { color: 3, start: 6, end: capped(8 + confirm@.len()) },
        ColorSpan {
            color: 3,
            start: capped(20 + confirm@.len()),
            end: capped(22 + confirm@.len() + cancel@.len()),
        },
    ];
    let title_len = title.as_str().unicode_len();
    let title_x = centre(cols, title_len);
    out.push(
        Placed {
            text: title,
            x: title_x,
            y: rows_above_middle(rows, 3),
            colors: vec![ColorSpan { color: 2, start: 0, end: title_len }],
        },
    );

    let question = String::from_str(a.confirmation_text());
    let question_x = centre(cols, question.as_str().unicode_len());
    out.push(
        Placed { text: question, x: question_x, y: rows_above_middle(rows, 1), colors: Vec::new() },
    );

    let target = target_text(a, pane, tab);
    let target_len = target.as_str().unicode_len();
    if target_len != 0 {
        let target_x = centre(cols, target_len);
        out.push(
            Placed {
                text: target,
                x: target_x,
                y: capped_add(rows / 2, 1),
                colors: vec![ColorSpan { color: 1, start: 0, end: 7 }],
            },
        );
    }

    let confirm_len = confirm.unicode_len();
    let cancel_len = cancel.unicode_len();
    let help = String::from_str("Help: <").concat(confirm).concat("> - Confirm, <").concat(
        cancel,
    ).concat("> - Cancel");
    let help_x = centre(cols, help.as_str().unicode_len());
    let help_y: usize = if rows >= 1 {
        rows - 1
    } else {
        0
    };
    let first_end = capped_add(8, confirm_len);
    let second_start = capped_add(20, confirm_len);
    let second_end = capped_add(capped_add(22, confirm_len), cancel_len);
    out.push(
        Placed {
            text: help,
            x: help_x,
            y: help_y,
            colors: vec![
                ColorSpan { color: 3, start: 6, end: first_end },
                ColorSpan { color: 3, start: second_start, end: second_end },
            ],
        },
    );
    assert(out@[0].colors@ =~= seq![ColorSpan { color: 2, start: 0, end: title_len }]);
    assert(out@[1].colors@ =~= Seq::<ColorSpan>::empty());
    if target_len != 0 {
        assert(out@[2].colors@ =~= seq![ColorSpan { color: 1, start: 0, end: 7 }]);
        assert(out@[3].colors@ =~= help_colors);
    } else {
        assert(out@[2].colors@ =~= help_colors);
    }
    out
}

impl State {
    /// Lays out the overlay on a screen of `rows` by `cols` cells. The key
    /// names are the host's own text for the two keys.
    pub fn layout(&self, rows: usize, cols: usize) -> (r: Vec<Placed>)
        ensures
            screen_is(
                r@,
                self.action,
                self.target_pane,
                self.target_tab,
                label_of(self.confirm_key),
                label_of(self.cancel_key),
                rows,
                cols,
            ),
    {
        let confirm = key_label(&self.confirm_key);
        let cancel = key_label(&self.cancel_key);
        compose_layout(
            self.action,
            self.target_pane,
            self.target_tab,
            confirm.as_str(),
            cancel.as_str(),
            rows,
            cols,
        )
    }
}

} // verus!
