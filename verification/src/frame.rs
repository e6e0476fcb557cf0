//! The dashboard's frame: bordered single- and double-pane layouts around
//! the menu and tab content, and the tab strip itself.

use vstd::prelude::*;

use crate::render::{build_command_drawer, build_menu_lines, build_tab_lines, view_theme, Theme, ThemeModel};
use crate::session::{spec_tab_label, DashboardTab, SessionState, UiState};
use crate::text::{concat2, pad_seq, pad_text, repeat_seq, starts_with_seq, str_starts_with};

verus! {

/// A horizontal frame edge: `+`, a run of dashes, `+`, in border color.
pub open spec fn spec_edge_row(t: ThemeModel, dashes: nat) -> Seq<char> {
    t.border + "+"@ + repeat_seq("-"@, dashes) + "+"@ + t.reset
}

fn edge_row(theme: &Theme, dashes: usize) -> (r: String)
    ensures
        r@ == spec_edge_row(view_theme(*theme), dashes as nat),
{
    let mut out = theme.border.to_owned();
    out.append("+");
    let run = crate::text::repeat_str("-", dashes);
    out.append(run.as_str());
    out.append("+");
    out.append(theme.reset);
    out
}

/// A full-width framed text row: the text padded to the width between
/// border bars.
pub open spec fn spec_bar_row(t: ThemeModel, text: Seq<char>, width: nat) -> Seq<char> {
    t.border + "|"@ + t.reset + pad_seq(text, width) + t.border + "|"@ + t.reset
}

fn bar_row(theme: &Theme, text: &str, width: usize) -> (r: String)
    ensures
        r@ == spec_bar_row(view_theme(*theme), text@, width as nat),
{
    let mut out = theme.border.to_owned();
    out.append("|");
    out.append(theme.reset);
    let padded = pad_text(text, width);
    out.append(padded.as_str());
    out.append(theme.border);
    out.append("|");
    out.append(theme.reset);
    out
}

/// Whether a pane line is the selected menu line, which is shown in the
/// accent color; every other line is muted.
pub open spec fn spec_line_color(t: ThemeModel, line: Seq<char>) -> Seq<char> {
    if crate::text::starts_with_seq(line, "> "@) {
        t.accent
    } else {
        t.muted
    }
}

/// One content row of the single-pane layout: the line padded to the
/// width, colored by whether it is the selection.
pub open spec fn spec_single_body_row(t: ThemeModel, line: Seq<char>, width: nat) -> Seq<char> {
    t.border + "|"@ + t.reset + spec_line_color(t, line) + pad_seq(line, width) + t.reset + "|"@
        + t.border
}

fn single_body_row(theme: &Theme, line: &str, width: usize) -> (r: String)
    ensures
        r@ == spec_single_body_row(view_theme(*theme), line@, width as nat),
{
    let mut out = theme.border.to_owned();
    out.append("|");
    out.append(theme.reset);
    if crate::text::str_starts_with(line, "> ") {
        out.append(theme.accent);
    } else {
        out.append(theme.muted);
    }
    let padded = pad_text(line, width);
    out.append(padded.as_str());
    out.append(theme.reset);
    out.append("|");
    out.append(theme.border);
    out
}

/// A blank filler row of the single-pane layout.
pub open spec fn spec_single_fill_row(t: ThemeModel, width: nat) -> Seq<char> {
    t.border + "|"@ + t.reset + repeat_seq(" "@, width) + "|"@ + t.border
}

fn single_fill_row(theme: &Theme, width: usize) -> (r: String)
    ensures
        r@ == spec_single_fill_row(view_theme(*theme), width as nat),
{
    let mut out = theme.border.to_owned();
    out.append("|");
    out.append(theme.reset);
    let run = crate::text::repeat_str(" ", width);
    out.append(run.as_str());
    out.append("|");
    out.append(theme.border);
    out
}

/// The tab strip: each tab numbered and labelled, the active one bracketed
/// in the accent color.
pub open spec fn spec_tab_cell(t: ThemeModel, n: Seq<char>, tab: DashboardTab, active: DashboardTab) -> Seq<char> {
    let label = "[ "@ + n + ":"@ + spec_tab_label(tab) + " ]"@;
    if tab == active {
        t.accent + label + t.reset
    } else {
        label
    }
}

pub open spec fn spec_tabs_text(t: ThemeModel, active: DashboardTab) -> Seq<char> {
    spec_tab_cell(t, "1"@, DashboardTab::Commands, active) + " "@ + spec_tab_cell(
        t,
        "2"@,
        DashboardTab::Output,
        active,
    ) + " "@ + spec_tab_cell(t, "3"@, DashboardTab::Help, active)
}

fn tab_cell(theme: &Theme, n: &str, tab: DashboardTab, active: DashboardTab) -> (r: String)
    ensures
        r@ == spec_tab_cell(view_theme(*theme), n@, tab, active),
{
    let mut label = String::from_str("[ ");
    label.append(n);
    label.append(":");
    label.append(tab.label());
    label.append(" ]");
    if tab == active {
        let mut out = theme.accent.to_owned();
        out.append(label.as_str());
        out.append(theme.reset);
        out
    } else {
        label
    }
}

/// The numbered tab strip, with the active tab highlighted.
pub fn tabs_header(theme: &Theme, active: DashboardTab) -> (r: String)
    ensures
        r@ == spec_tabs_text(view_theme(*theme), active),
{
    let mut out = tab_cell(theme, "1", DashboardTab::Commands, active);
    out.append(" ");
    let b = tab_cell(theme, "2", DashboardTab::Output, active);
    out.append(b.as_str());
    out.append(" ");
    let c = tab_cell(theme, "3", DashboardTab::Help, active);
    out.append(c.as_str());
    out
}

/// The number of content rows of the single-pane layout.
pub open spec fn spec_single_rows(rows: int) -> int {
    let r = if rows >= 6 {
        rows - 6
    } else {
        0
    };
    if r >= 10 {
        r
    } else {
        10
    }
}

/// The inner width of the single-pane layout.
pub open spec fn spec_single_width(cols: int) -> int {
    let w = if cols >= 2 {
        cols - 2
    } else {
        0
    };
    if w >= 30 {
        w
    } else {
        30
    }
}

/// The single-pane layout: a framed title with the tab strip, the last
/// rows of the content (padded with blank rows up to the height), and a
/// framed footer.
#[verifier::loop_isolation(false)]
pub fn framed_single_pane(
    theme: &Theme,
    content: &Vec<String>,
    cols: usize,
    rows: usize,
    title: &str,
    footer: &str,
) -> (v: Vec<String>)
    requires
        cols <= 65535,
        rows <= 65535,
    ensures
        ({
            let t = view_theme(*theme);
            let w = spec_single_width(cols as int) as nat;
            let total = spec_single_rows(rows as int);
            let shown = if content@.len() <= total {
                content@.len() as int
            } else {
                total
            };
            &&& v@.len() == total + 6
            &&& v@[0]@ == spec_edge_row(t, w)
            &&& v@[1]@ == spec_bar_row(t, title@, w)
            &&& v@[2]@ == spec_edge_row(t, w)
            &&& (forall|k: int|
                0 <= k < shown ==> (#[trigger] v@[3 + k])@ == spec_single_body_row(
                    t,
                    content@[content@.len() - shown + k]@,
                    w,
                ))
            &&& (forall|k: int|
                shown <= k < total ==> (#[trigger] v@[3 + k])@ == spec_single_fill_row(t, w))
            &&& v@[3 + total]@ == spec_edge_row(t, w)
            &&& v@[4 + total]@ == spec_bar_row(t, footer@, w)
            &&& v@[5 + total]@ == spec_edge_row(t, w)
        }),
{
    let width = if cols >= 2 && cols - 2 >= 30 {
        cols - 2
    } else {
        30
    };
    let total_rows = if rows >= 6 && rows - 6 >= 10 {
        rows - 6
    } else {
        10
    };
    let shown = if content.len() <= total_rows {
        content.len()
    } else {
        total_rows
    };
    let first = content.len() - shown;

    let mut v: Vec<String> = Vec::new();
    v.push(edge_row(theme, width));
    v.push(bar_row(theme, title, width));
    v.push(edge_row(theme, width));
    let mut k: usize = 0;
    while k < shown
        invariant
            k <= shown,
            v@.len() == 3 + k,
            v@[0]@ == spec_edge_row(view_theme(*theme), width as nat),
            v@[1]@ == spec_bar_row(view_theme(*theme), title@, width as nat),
            v@[2]@ == spec_edge_row(view_theme(*theme), width as nat),
            forall|j: int|
                0 <= j < k ==> (#[trigger] v@[3 + j])@ == spec_single_body_row(
                    view_theme(*theme),
                    content@[first + j]@,
                    width as nat,
                ),
        decreases shown - k,
    {
        v.push(single_body_row(theme, content[first + k].as_str(), width));
        k = k + 1;
    }
    let mut f: usize = shown;
    while f < total_rows
        invariant
            shown <= f <= total_rows,
            v@.len() == 3 + f,
            v@[0]@ == spec_edge_row(view_theme(*theme), width as nat),
            v@[1]@ == spec_bar_row(view_theme(*theme), title@, width as nat),
            v@[2]@ == spec_edge_row(view_theme(*theme), width as nat),
            forall|j: int|
                0 <= j < shown ==> (#[trigger] v@[3 + j])@ == spec_single_body_row(
                    view_theme(*theme),
                    content@[first + j]@,
                    width as nat,
                ),
            forall|j: int|
                shown <= j < f ==> (#[trigger] v@[3 + j])@ == spec_single_fill_row(
                    view_theme(*theme),
                    width as nat,
                ),
        decreases total_rows - f,
    {
        v.push(single_fill_row(theme, width));
        f = f + 1;
    }
    v.push(edge_row(theme, width));
    v.push(bar_row(theme, footer, width));
    v.push(edge_row(theme, width));
    proof {
        let t = view_theme(*theme);
        let w = spec_single_width(cols as int) as nat;
        let total = spec_single_rows(rows as int);
        assert(width as int == spec_single_width(cols as int));
        assert(total_rows as int == total);
        assert(v@.len() == total + 6);
        assert(v@[0]@ == spec_edge_row(t, w));
        assert(v@[1]@ == spec_bar_row(t, title@, w));
        assert(v@[2]@ == spec_edge_row(t, w));
        assert(v@[3 + total]@ == spec_edge_row(t, w));
        assert(v@[4 + total]@ == spec_bar_row(t, footer@, w));
        assert(v@[5 + total]@ == spec_edge_row(t, w));
    }
    v
}

/// The number of content rows of the double-pane layout.
pub open spec fn spec_double_rows(rows: int) -> int {
    let r = if rows >= 7 {
        rows - 7
    } else {
        0
    };
    if r >= 12 {
        r
    } else {
        12
    }
}

/// The widths of the double-pane layout: the left box, and the right box
/// beside it.
pub open spec fn spec_left_width(cols: int) -> int {
    let w = cols * 45 / 100;
    if w >= 46 {
        w
    } else {
        46
    }
}

pub open spec fn spec_right_width(cols: int) -> int {
    let w = if cols >= spec_left_width(cols) + 1 {
        cols - spec_left_width(cols) - 1
    } else {
        0
    };
    if w >= 30 {
        w
    } else {
        30
    }
}

pub open spec fn spec_inner(w: int) -> int {
    let i = if w >= 2 {
        w - 2
    } else {
        0
    };
    if i >= 20 {
        i
    } else {
        20
    }
}

/// The divided frame edge of the double-pane layout.
pub open spec fn spec_double_edge(t: ThemeModel, lw: int, rw: int) -> Seq<char> {
    t.border + "+"@ + repeat_seq("-"@, (if lw >= 2 {
        lw - 2
    } else {
        0
    }) as nat) + "+ +"@ + repeat_seq("-"@, (if rw >= 2 {
        rw - 2
    } else {
        0
    }) as nat) + "+"@ + t.reset
}

fn double_edge(theme: &Theme, lw: usize, rw: usize) -> (r: String)
    ensures
        r@ == spec_double_edge(view_theme(*theme), lw as int, rw as int),
{
    let mut out = theme.border.to_owned();
    out.append("+");
    let ld = if lw >= 2 {
        lw - 2
    } else {
        0
    };
    let run = crate::text::repeat_str("-", ld);
    out.append(run.as_str());
    out.append("+ +");
    let rd = if rw >= 2 {
        rw - 2
    } else {
        0
    };
    let run2 = crate::text::repeat_str("-", rd);
    out.append(run2.as_str());
    out.append("+");
    out.append(theme.reset);
    out
}

/// One content row of the double-pane layout: the menu line on the left,
/// colored by selection, and the tab line on the right, muted.
pub open spec fn spec_double_body_row(
    t: ThemeModel,
    left: Seq<char>,
    right: Seq<char>,
    li: nat,
    ri: nat,
) -> Seq<char> {
    t.border + "|"@ + t.reset + (spec_line_color(t, left) + pad_seq(left, li) + t.reset) + t.border
        + "|"@ + t.reset + " "@ + t.border + "|"@ + t.muted + pad_seq(right, ri) + t.border + "|"@
        + t.reset
}

fn double_body_row(theme: &Theme, left: &str, right: &str, li: usize, ri: usize) -> (r: String)
    ensures
        r@ == spec_double_body_row(view_theme(*theme), left@, right@, li as nat, ri as nat),
{
    let mut out = theme.border.to_owned();
    out.append("|");
    out.append(theme.reset);
    if crate::text::str_starts_with(left, "> ") {
        out.append(theme.accent);
    } else {
        out.append(theme.muted);
    }
    let lp = pad_text(left, li);
    out.append(lp.as_str());
    out.append(theme.reset);
    out.append(theme.border);
    out.append("|");
    out.append(theme.reset);
    out.append(" ");
    out.append(theme.border);
    out.append("|");
    out.append(theme.muted);
    let rp = pad_text(right, ri);
    out.append(rp.as_str());
    out.append(theme.border);
    out.append("|");
    out.append(theme.reset);
    out
}

/// The double-pane layout: a full-width title with the tab strip, the menu
/// beside the active tab's lines, and a full-width footer.
#[verifier::rlimit(100)]
#[verifier::spinoff_prover]
#[verifier::loop_isolation(false)]
pub fn framed_double_pane(
    theme: &Theme,
    left: &Vec<String>,
    right: &Vec<String>,
    cols: usize,
    rows: usize,
    title: &str,
    footer: &str,
) -> (v: Vec<String>)
    requires
        cols <= 65535,
        rows <= 65535,
    ensures
        ({
            let t = view_theme(*theme);
            let w = (if cols >= 2 {
                cols - 2
            } else {
                0
            }) as nat;
            let total = spec_double_rows(rows as int);
            let lw = spec_left_width(cols as int);
            let rw = spec_right_width(cols as int);
            let li = spec_inner(lw) as nat;
            let ri = spec_inner(rw) as nat;
            &&& v@.len() == total + 6
            &&& v@[0]@ == spec_edge_row(t, w)
            &&& v@[1]@ == spec_bar_row(t, title@, w)
            &&& v@[2]@ == spec_double_edge(t, lw, rw)
            &&& (forall|k: int|
                0 <= k < total ==> (#[trigger] v@[3 + k])@ == spec_double_body_row(
                    t,
                    (if k < left@.len() {
                        left@[k]@
                    } else {
                        Seq::empty()
                    }),
                    (if k < right@.len() {
                        right@[k]@
                    } else {
                        Seq::empty()
                    }),
                    li,
                    ri,
                ))
            &&& v@[3 + total]@ == spec_double_edge(t, lw, rw)
            &&& v@[4 + total]@ == spec_bar_row(t, footer@, w)
            &&& v@[5 + total]@ == spec_edge_row(t, w)
        }),
{
    let w = if cols >= 2 {
        cols - 2
    } else {
        0
    };
    let total_rows = if rows >= 7 && rows - 7 >= 12 {
        rows - 7
    } else {
        12
    };
    let lw0 = cols * 45 / 100;
    let lw = if lw0 >= 46 {
        lw0
    } else {
        46
    };
    let rw0 = if cols >= lw + 1 {
        cols - lw - 1
    } else {
        0
    };
    let rw = if rw0 >= 30 {
        rw0
    } else {
        30
    };
    let li0 = if lw >= 2 {
        lw - 2
    } else {
        0
    };
    let li = if li0 >= 20 {
        li0
    } else {
        20
    };
    let ri0 = if rw >= 2 {
        rw - 2
    } else {
        0
    };
    let ri = if ri0 >= 20 {
        ri0
    } else {
        20
    };

    let mut v: Vec<String> = Vec::new();
    v.push(edge_row(theme, w));
    v.push(bar_row(theme, title, w));
    v.push(double_edge(theme, lw, rw));
    let mut k: usize = 0;
    while k < total_rows
        invariant
            k <= total_rows,
            v@.len() == 3 + k,
            v@[0]@ == spec_edge_row(view_theme(*theme), w as nat),
            v@[1]@ == spec_bar_row(view_theme(*theme), title@, w as nat),
            v@[2]@ == spec_double_edge(view_theme(*theme), lw as int, rw as int),
            forall|j: int|
                0 <= j < k ==> (#[trigger] v@[3 + j])@ == spec_double_body_row(
                    view_theme(*theme),
                    (if j < left@.len() {
                        left@[j]@
                    } else {
                        Seq::empty()
                    }),
                    (if j < right@.len() {
                        right@[j]@
                    } else {
                        Seq::empty()
                    }),
                    li as nat,
                    ri as nat,
                ),
        decreases total_rows - k,
    {
        let lraw = if k < left.len() {
            left[k].as_str()
        } else {
            ""
        };
        let rraw = if k < right.len() {
            right[k].as_str()
        } else {
            ""
        };
        proof {
            reveal_strlit("");
            assert(""@ =~= Seq::<char>::empty());
        }
        v.push(double_body_row(theme, lraw, rraw, li, ri));
        k = k + 1;
    }
    v.push(double_edge(theme, lw, rw));
    v.push(bar_row(theme, footer, w));
    v.push(edge_row(theme, w));
    v
}


/// The dashboard's title row text: the product name and the tab strip.
pub fn dashboard_title(theme: &Theme, active: DashboardTab) -> (r: String)
    ensures
        r@ == " xint dashboard "@ + spec_tabs_text(view_theme(*theme), active),
{
    let tabs = tabs_header(theme, active);
    concat2(" xint dashboard ", tabs.as_str())
}

/// The narrow layout, drawn when the terminal is under the width threshold:
/// the active tab's lines (the commands tab shows the menu above the
/// drawer), framed with the title and the hotkey footer.
pub fn render_single_pane_lines(
    ui: &mut UiState,
    session: &SessionState,
    theme: &Theme,
    cols: usize,
    rows: usize,
) -> (v: Vec<String>)
    requires
        cols <= 65535,
        rows <= 65535,
        crate::session::ui_inv(*old(ui)),
    ensures
        ({
            let t = view_theme(*theme);
            let w = spec_single_width(cols as int) as nat;
            let total = spec_single_rows(rows as int);
            &&& v@.len() == total + 6
            &&& v@[0]@ == spec_edge_row(t, w)
            &&& v@[1]@ == spec_bar_row(
                t,
                " xint dashboard "@ + spec_tabs_text(t, old(ui).tab),
                w,
            )
            &&& v@[2]@ == spec_edge_row(t, w)
            &&& v@[3 + total]@ == spec_edge_row(t, w)
            &&& v@[4 + total]@ == spec_bar_row(
                t,
                " Tab Tabs | F Search Output | PgUp/PgDn Scroll | / Palette | q Quit "@,
                w,
            )
            &&& v@[5 + total]@ == spec_edge_row(t, w)
        }),
        final(ui).tab == old(ui).tab,
        final(ui).active_index == old(ui).active_index,
        final(ui).output_search == old(ui).output_search,
{
    let title = dashboard_title(theme, ui.tab);
    let total_rows = if rows >= 6 && rows - 6 >= 10 {
        rows - 6
    } else {
        10
    };
    let content = if matches!(ui.tab, DashboardTab::Commands) {
        let mut merged = build_menu_lines(ui.active_index);
        merged.push(String::new());
        let drawer = build_command_drawer(ui.active_index);
        let mut d: usize = 0;
        while d < drawer.len()
            invariant
                d <= drawer@.len(),
            decreases drawer@.len() - d,
        {
            merged.push(drawer[d].clone());
            d = d + 1;
        }
        merged
    } else {
        let viewport = if total_rows <= usize::MAX / 2 {
            total_rows * 2
        } else {
            usize::MAX
        };
        build_tab_lines(session, ui, viewport)
    };
    framed_single_pane(
        theme,
        &content,
        cols,
        rows,
        title.as_str(),
        " Tab Tabs | F Search Output | PgUp/PgDn Scroll | / Palette | q Quit ",
    )
}

/// The wide layout: the menu pane beside the active tab's lines, cut to the
/// height, framed with the title and the hotkey footer.
pub fn render_double_pane_lines(
    ui: &mut UiState,
    session: &SessionState,
    theme: &Theme,
    cols: usize,
    rows: usize,
) -> (v: Vec<String>)
    requires
        cols <= 65535,
        rows <= 65535,
        crate::session::ui_inv(*old(ui)),
    ensures
        ({
            let t = view_theme(*theme);
            let w = (if cols >= 2 {
                cols - 2
            } else {
                0
            }) as nat;
            let total = spec_double_rows(rows as int);
            let lw = spec_left_width(cols as int);
            let rw = spec_right_width(cols as int);
            &&& v@.len() == total + 6
            &&& v@[0]@ == spec_edge_row(t, w)
            &&& v@[1]@ == spec_bar_row(
                t,
                " xint dashboard "@ + spec_tabs_text(t, old(ui).tab),
                w,
            )
            &&& v@[2]@ == spec_double_edge(t, lw, rw)
            &&& v@[3 + total]@ == spec_double_edge(t, lw, rw)
            &&& v@[4 + total]@ == spec_bar_row(
                t,
                " Up/Down Navigate | Enter Run | Tab Tabs | F Search Output | PgUp/PgDn Scroll | / Palette | q Quit "@,
                w,
            )
            &&& v@[5 + total]@ == spec_edge_row(t, w)
        }),
        final(ui).tab == old(ui).tab,
        final(ui).active_index == old(ui).active_index,
        final(ui).output_search == old(ui).output_search,
{
    let title = dashboard_title(theme, ui.tab);
    let total_rows = if rows >= 7 && rows - 7 >= 12 {
        rows - 7
    } else {
        12
    };
    let left = build_menu_lines(ui.active_index);
    let mut right = build_tab_lines(session, ui, total_rows);
    if right.len() > total_rows {
        let start = right.len() - total_rows;
        let mut kept: Vec<String> = Vec::new();
        let mut i: usize = start;
        while i < right.len()
            invariant
                start <= i <= right@.len(),
            decreases right@.len() - i,
        {
            kept.push(right[i].clone());
            i = i + 1;
        }
        right = kept;
    }
    framed_double_pane(
        theme,
        &left,
        &right,
        cols,
        rows,
        title.as_str(),
        " Up/Down Navigate | Enter Run | Tab Tabs | F Search Output | PgUp/PgDn Scroll | / Palette | q Quit ",
    )
}

/// Whether the terminal is wide enough for the double-pane layout.
pub fn use_double_pane(cols: u16) -> (r: bool)
    ensures
        r == (cols >= 110),
{
    cols >= 110
}

} // verus!
