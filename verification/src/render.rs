//! The dashboard's text: menu and command panes, the filtered output view,
//! tab lines, and the theme's terminal codes. Everything here turns plain
//! state into lines; printing them is the caller's business.

use vstd::prelude::*;

use crate::menu::{
    command_meta, menu_options, spec_command_meta, spec_menu, view_option, MenuOption, OptionModel,
};
use crate::session::{
    opt_view, strings_view, spec_tab_label, DashboardTab, SessionState, UiState,
};
use crate::text::{
    chars_of, contains_seq, dec_rep, fold_trimmed, join_seq, join_strings, lower_seq,
    str_contains_ci, str_eq_ci, trim_seq, trim_str, u64_to_string,
};

verus! {

/// The terminal codes of one color theme.
pub struct Theme {
    pub accent: &'static str,
    pub border: &'static str,
    pub muted: &'static str,
    pub reset: &'static str,
}

/// The mathematical shape of a theme.
pub ghost struct ThemeModel {
    pub accent: Seq<char>,
    pub border: Seq<char>,
    pub muted: Seq<char>,
    pub reset: Seq<char>,
}

pub open spec fn view_theme(t: Theme) -> ThemeModel {
    ThemeModel { accent: t.accent@, border: t.border@, muted: t.muted@, reset: t.reset@ }
}

/// The theme chosen by a (lowercased) name: minimal and neon are named,
/// anything else is the classic theme.
pub open spec fn spec_theme(name: Seq<char>) -> ThemeModel {
    if name == "minimal"@ {
        ThemeModel { accent: "\u{1b}[1m"@, border: ""@, muted: ""@, reset: "\u{1b}[0m"@ }
    } else if name == "neon"@ {
        ThemeModel {
            accent: "\u{1b}[1;95m"@,
            border: "\u{1b}[38;5;45m"@,
            muted: "\u{1b}[38;5;244m"@,
            reset: "\u{1b}[0m"@,
        }
    } else {
        ThemeModel {
            accent: "\u{1b}[1;36m"@,
            border: "\u{1b}[2m"@,
            muted: "\u{1b}[2m"@,
            reset: "\u{1b}[0m"@,
        }
    }
}

/// The theme for a requested name, compared without regard to case.
pub fn theme_for_name(name: &str) -> (t: Theme)
    ensures
        view_theme(t) == spec_theme(lower_seq(name@)),
{
    let minimal = chars_of("minimal");
    let neon = chars_of("neon");
    if str_eq_ci(name, &minimal) {
        Theme { accent: "\u{1b}[1m", border: "", muted: "", reset: "\u{1b}[0m" }
    } else if str_eq_ci(name, &neon) {
        Theme {
            accent: "\u{1b}[1;95m",
            border: "\u{1b}[38;5;45m",
            muted: "\u{1b}[38;5;244m",
            reset: "\u{1b}[0m",
        }
    } else {
        Theme {
            accent: "\u{1b}[1;36m",
            border: "\u{1b}[2m",
            muted: "\u{1b}[2m",
            reset: "\u{1b}[0m",
        }
    }
}

/// The alias note behind a menu label: nothing, or the aliases joined with
/// commas in parentheses.
pub open spec fn spec_alias_note(aliases: Seq<Seq<char>>) -> Seq<char> {
    if aliases.len() == 0 {
        Seq::empty()
    } else {
        " ("@ + join_seq(aliases, ", "@) + ")"@
    }
}

/// One menu line: the selection pointer, the key, the label and the alias
/// note.
pub open spec fn spec_menu_line(o: OptionModel, selected: bool) -> Seq<char> {
    (if selected {
        ">"@
    } else {
        " "@
    }) + " "@ + o.key + ") "@ + o.label + spec_alias_note(o.aliases)
}

/// The hint line shown under a menu line.
pub open spec fn spec_hint_line(o: OptionModel) -> Seq<char> {
    "    "@ + o.hint
}

fn alias_note(option: &MenuOption) -> (r: String)
    ensures
        r@ == spec_alias_note(view_option(*option).aliases),
{
    if option.aliases.len() == 0 {
        String::new()
    } else {
        let joined = join_strings(&option.aliases, ", ");
        let mut out = String::from_str(" (");
        out.append(joined.as_str());
        out.append(")");
        out
    }
}

/// The menu pane: a heading, a blank line, then a menu line and a hint
/// line for every option, with the pointer on the selected one.
pub fn build_menu_lines(active_index: usize) -> (v: Vec<String>)
    ensures
        v@.len() == 2 + 2 * spec_menu().len(),
        v@[0]@ == "Menu"@,
        v@[1]@ == Seq::<char>::empty(),
        forall|k: int|
            0 <= k < spec_menu().len() ==> (#[trigger] v@[2 + 2 * k])@ == spec_menu_line(
                spec_menu()[k],
                k == active_index,
            ) && v@[2 + 2 * k + 1]@ == spec_hint_line(spec_menu()[k]),
{
    let menu = menu_options();
    let mut v: Vec<String> = Vec::new();
    v.push("Menu".to_owned());
    v.push(String::new());
    let mut i: usize = 0;
    while i < menu.len()
        invariant
            menu@.len() == spec_menu().len(),
            forall|k: int|
                0 <= k < menu@.len() ==> view_option(#[trigger] menu@[k]) == spec_menu()[k],
            i <= menu@.len(),
            v@.len() == 2 + 2 * i,
            v@[0]@ == "Menu"@,
            v@[1]@ == Seq::<char>::empty(),
            forall|k: int|
                0 <= k < i ==> (#[trigger] v@[2 + 2 * k])@ == spec_menu_line(
                    spec_menu()[k],
                    k == active_index,
                ) && v@[2 + 2 * k + 1]@ == spec_hint_line(spec_menu()[k]),
        decreases menu@.len() - i,
    {
        let option = &menu[i];
        let mut line = if i == active_index {
            String::from_str(">")
        } else {
            String::from_str(" ")
        };
        line.append(" ");
        line.append(option.key.as_str());
        line.append(") ");
        line.append(option.label.as_str());
        let note = alias_note(option);
        line.append(note.as_str());
        proof {
            assert(line@ =~= spec_menu_line(spec_menu()[i as int], i == active_index));
        }
        v.push(line);
        let mut hint = String::from_str("    ");
        hint.append(option.hint.as_str());
        proof {
            assert(hint@ =~= spec_hint_line(spec_menu()[i as int]));
        }
        v.push(hint);
        proof {
            assert(v@[2 + 2 * (i as int)]@ == spec_menu_line(
                spec_menu()[i as int],
                i == active_index,
            ));
            assert(v@[2 + 2 * (i as int) + 1]@ == spec_hint_line(spec_menu()[i as int]));
        }
        i = i + 1;
    }
    v
}

/// The command drawer: details of the selected option, falling back to the
/// first option when the selection is out of range.
pub fn build_command_drawer(active_index: usize) -> (v: Vec<String>)
    ensures
        ({
            let o = spec_menu()[if active_index < spec_menu().len() {
                active_index as int
            } else {
                0
            }];
            let m = spec_command_meta(o.key);
            &&& v@.len() == 6
            &&& v@[0]@ == "Command details"@
            &&& v@[1]@ == Seq::<char>::empty()
            &&& v@[2]@ == "Selected: "@ + o.label
            &&& v@[3]@ == "Summary: "@ + m.summary
            &&& v@[4]@ == "Example: "@ + m.example
            &&& v@[5]@ == "Cost: "@ + m.cost_hint
        }),
{
    let menu = menu_options();
    let selected = if active_index < menu.len() {
        &menu[active_index]
    } else {
        &menu[0]
    };
    let meta = command_meta(selected.key.as_str());
    let mut v: Vec<String> = Vec::new();
    v.push("Command details".to_owned());
    v.push(String::new());
    v.push(crate::text::concat2("Selected: ", selected.label.as_str()));
    v.push(crate::text::concat2("Summary: ", meta.summary.as_str()));
    v.push(crate::text::concat2("Example: ", meta.example.as_str()));
    v.push(crate::text::concat2("Cost: ", meta.cost_hint.as_str()));
    v
}

/// The help tab's body.
pub open spec fn spec_help_body() -> Seq<Seq<char>> {
    seq![
        "Hotkeys"@,
        "  Up/Down: Move selection"@,
        "  Enter: Run selected command"@,
        "  Tab: Switch tabs"@,
        "  F: Output search (filter)"@,
        "  PgUp/PgDn: Scroll output"@,
        "  /: Command palette"@,
        "  ?: Open Help tab"@,
        "  q or Esc: Exit"@,
    ]
}

/// The help tab: a heading, a blank line, and the hotkey list.
pub fn build_help_lines() -> (v: Vec<String>)
    ensures
        strings_view(v@) == seq!["Help"@, Seq::<char>::empty()] + spec_help_body(),
{
    let mut v: Vec<String> = Vec::new();
    v.push("Help".to_owned());
    v.push(String::new());
    v.push("Hotkeys".to_owned());
    v.push("  Up/Down: Move selection".to_owned());
    v.push("  Enter: Run selected command".to_owned());
    v.push("  Tab: Switch tabs".to_owned());
    v.push("  F: Output search (filter)".to_owned());
    v.push("  PgUp/PgDn: Scroll output".to_owned());
    v.push("  /: Command palette".to_owned());
    v.push("  ?: Open Help tab".to_owned());
    v.push("  q or Esc: Exit".to_owned());
    proof {
        assert(strings_view(v@) =~~= seq!["Help"@, Seq::<char>::empty()] + spec_help_body());
    }
    v
}

/// The plain menu printed when no terminal is attached.
pub fn plain_menu_lines() -> (v: Vec<String>)
    ensures
        v@.len() == 1 + 2 * spec_menu().len(),
        v@[0]@ == "=== xint interactive ==="@,
        forall|k: int|
            0 <= k < spec_menu().len() ==> (#[trigger] v@[1 + 2 * k])@ == spec_menu()[k].key + ") "@
                + spec_menu()[k].label + spec_alias_note(spec_menu()[k].aliases) && v@[1 + 2 * k
                + 1]@ == "   - "@ + spec_menu()[k].hint,
{
    let menu = menu_options();
    let mut v: Vec<String> = Vec::new();
    v.push("=== xint interactive ===".to_owned());
    let mut i: usize = 0;
    while i < menu.len()
        invariant
            menu@.len() == spec_menu().len(),
            forall|k: int|
                0 <= k < menu@.len() ==> view_option(#[trigger] menu@[k]) == spec_menu()[k],
            i <= menu@.len(),
            v@.len() == 1 + 2 * i,
            v@[0]@ == "=== xint interactive ==="@,
            forall|k: int|
                0 <= k < i ==> (#[trigger] v@[1 + 2 * k])@ == spec_menu()[k].key + ") "@
                    + spec_menu()[k].label + spec_alias_note(spec_menu()[k].aliases) && v@[1 + 2 * k
                    + 1]@ == "   - "@ + spec_menu()[k].hint,
        decreases menu@.len() - i,
    {
        let option = &menu[i];
        let mut line = option.key.clone();
        line.append(") ");
        line.append(option.label.as_str());
        let note = alias_note(option);
        line.append(note.as_str());
        proof {
            assert(line@ =~= spec_menu()[i as int].key + ") "@ + spec_menu()[i as int].label
                + spec_alias_note(spec_menu()[i as int].aliases));
        }
        v.push(line);
        let mut hint = String::from_str("   - ");
        hint.append(option.hint.as_str());
        proof {
            assert(hint@ =~= "   - "@ + spec_menu()[i as int].hint);
        }
        v.push(hint);
        proof {
            let ghost oi = spec_menu()[i as int];
            assert(v@[1 + 2 * (i as int)]@ == oi.key + ") "@ + oi.label + spec_alias_note(
                oi.aliases,
            ));
            assert(v@[1 + 2 * (i as int) + 1]@ == "   - "@ + spec_menu()[i as int].hint);
        }
        i = i + 1;
    }
    v
}


/// A scrollback line passes the filter when the filter is empty or occurs,
/// case-insensitively, in the line.
pub open spec fn line_matches(l: Seq<char>, q: Seq<char>) -> bool {
    q.len() == 0 || contains_seq(lower_seq(l), q)
}

/// The scrollback lines that pass the filter, oldest first.
pub open spec fn spec_filtered(lines: Seq<Seq<char>>, q: Seq<char>) -> Seq<Seq<char>>
    decreases lines.len(),
{
    if lines.len() == 0 {
        Seq::empty()
    } else {
        spec_filtered(lines.drop_last(), q) + (if line_matches(lines.last(), q) {
            seq![lines.last()]
        } else {
            Seq::<Seq<char>>::empty()
        })
    }
}

/// How many rows of output are shown at once: at least one.
pub open spec fn spec_visible(viewport: int) -> int {
    if viewport >= 1 {
        viewport
    } else {
        1
    }
}

/// The scroll offset clamped so the window never runs past the oldest
/// filtered line.
pub open spec fn spec_output_offset(
    lines: Seq<Seq<char>>,
    search: Seq<char>,
    offset: int,
    viewport: int,
) -> int {
    let q = lower_seq(trim_seq(search));
    let filtered = spec_filtered(lines, q);
    let visible = spec_visible(viewport);
    let max_off = if filtered.len() >= visible {
        filtered.len() - visible
    } else {
        0
    };
    if offset > max_off {
        max_off
    } else {
        offset
    }
}

/// The first shown filtered line: the window sits `offset` pages of one
/// line above the newest lines.
pub open spec fn spec_window_start(filtered_len: int, visible: int, off: int) -> int {
    if filtered_len > visible + off {
        filtered_len - visible - off
    } else {
        0
    }
}

pub open spec fn spec_window_end(filtered_len: int, visible: int, start: int) -> int {
    if start + visible < filtered_len {
        start + visible
    } else {
        filtered_len
    }
}

/// A remembered value, or a dash.
pub open spec fn spec_or_dash(o: Option<Seq<char>>) -> Seq<char> {
    match o {
        Some(s) => s,
        None => "-"@,
    }
}

/// The scrollback lines that pass the (already lowercased) filter.
fn filter_lines(lines: &Vec<String>, q: &Vec<char>) -> (filtered: Vec<String>)
    ensures
        strings_view(filtered@) == spec_filtered(strings_view(lines@), q@),
{
    let ghost lines0 = strings_view(lines@);
    let mut filtered: Vec<String> = Vec::new();
    let n = lines.len();
    let mut i: usize = 0;
    proof {
        assert(strings_view(filtered@) =~= spec_filtered(lines0.take(0), q@));
    }
    while i < n
        invariant
            n == lines@.len(),
            i <= n,
            lines0 == strings_view(lines@),
            strings_view(filtered@) == spec_filtered(lines0.take(i as int), q@),
        decreases n - i,
    {
        let line = &lines[i];
        let keep = if q.len() == 0 {
            true
        } else {
            str_contains_ci(line.as_str(), q)
        };
        proof {
            assert(lines0.take(i + 1).drop_last() =~= lines0.take(i as int));
            assert(lines0.take(i + 1).last() == lines0[i as int]);
            assert(lines0[i as int] == lines@[i as int]@);
        }
        if keep {
            filtered.push(line.clone());
            proof {
                assert(strings_view(filtered@) =~= spec_filtered(lines0.take(i as int), q@)
                    + seq![lines0[i as int]]);
            }
        }
        proof {
            assert(strings_view(filtered@) =~= spec_filtered(lines0.take(i + 1), q@));
        }
        i = i + 1;
    }
    proof {
        assert(lines0.take(n as int) =~= lines0);
    }
    filtered
}

/// The output tab below its header: the window of filtered lines (or a
/// note that none pass), between the header and a footer locating the
/// window.
pub open spec fn spec_assembled(
    filtered: Seq<Seq<char>>,
    cmd: Option<Seq<char>>,
    status: Option<Seq<char>>,
    disp: Seq<char>,
    start: int,
    end: int,
    off: int,
) -> Seq<Seq<char>> {
    let header = seq![
        "Last run"@,
        Seq::<char>::empty(),
        "command: "@ + spec_or_dash(cmd),
        "status: "@ + spec_or_dash(status),
        "filter: "@ + (if disp.len() == 0 {
            "(none)"@
        } else {
            disp
        }),
        Seq::<char>::empty(),
        "output:"@,
    ];
    let body = if start >= end {
        seq!["(no output lines for current filter)"@]
    } else {
        filtered.subrange(start, end)
    };
    let from: nat = if filtered.len() == 0 {
        0
    } else {
        (start + 1) as nat
    };
    let to: nat = if filtered.len() == 0 {
        0
    } else {
        end as nat
    };
    let footer = seq![
        Seq::<char>::empty(),
        "view "@ + dec_rep(from) + "-"@ + dec_rep(to) + " of "@ + dec_rep(filtered.len())
            + " | offset "@ + dec_rep(off as nat),
    ];
    header + body + footer
}

/// The whole output tab: the last command and status, the active filter,
/// the visible window of filtered lines, and a footer locating the window.
pub open spec fn spec_output_lines(
    lines: Seq<Seq<char>>,
    cmd: Option<Seq<char>>,
    status: Option<Seq<char>>,
    search: Seq<char>,
    offset: int,
    viewport: int,
) -> Seq<Seq<char>> {
    let disp = trim_seq(search);
    let q = lower_seq(disp);
    let filtered = spec_filtered(lines, q);
    let visible = spec_visible(viewport);
    let off = spec_output_offset(lines, search, offset, viewport);
    let start = spec_window_start(filtered.len() as int, visible, off);
    let end = spec_window_end(filtered.len() as int, visible, start);
    spec_assembled(filtered, cmd, status, disp, start, end, off)
}

/// Lay the output tab's lines out around an already-filtered, windowed
/// scrollback.
#[verifier::rlimit(100)]
#[verifier::loop_isolation(false)]
fn assemble_output(
    filtered: &Vec<String>,
    cmd: &Option<String>,
    status: &Option<String>,
    disp: &String,
    start: usize,
    end: usize,
    off: usize,
) -> (v: Vec<String>)
    requires
        start <= end <= filtered@.len(),
        start < usize::MAX,
    ensures
        strings_view(v@) == spec_assembled(
            strings_view(filtered@),
            opt_view(*cmd),
            opt_view(*status),
            disp@,
            start as int,
            end as int,
            off as int,
        ),
{
    let mut v: Vec<String> = Vec::new();
    v.push("Last run".to_owned());
    v.push(String::new());
    match cmd {
        Some(c) => v.push(crate::text::concat2("command: ", c.as_str())),
        None => v.push(crate::text::concat2("command: ", "-")),
    }
    match status {
        Some(st) => v.push(crate::text::concat2("status: ", st.as_str())),
        None => v.push(crate::text::concat2("status: ", "-")),
    }
    if disp.as_str().unicode_len() == 0 {
        v.push(crate::text::concat2("filter: ", "(none)"));
    } else {
        v.push(crate::text::concat2("filter: ", disp.as_str()));
    }
    v.push(String::new());
    v.push("output:".to_owned());

    if start >= end {
        v.push("(no output lines for current filter)".to_owned());
    } else {
        let mut k: usize = start;
        while k < end
            invariant
                start <= k <= end,
                v@.len() == 7 + k - start,
                v@[0]@ == "Last run"@,
                v@[1]@ == Seq::<char>::empty(),
                v@[2]@ == "command: "@ + spec_or_dash(opt_view(*cmd)),
                v@[3]@ == "status: "@ + spec_or_dash(opt_view(*status)),
                v@[4]@ == "filter: "@ + (if disp@.len() == 0 {
                    "(none)"@
                } else {
                    disp@
                }),
                v@[5]@ == Seq::<char>::empty(),
                v@[6]@ == "output:"@,
                forall|j: int|
                    0 <= j < k - start ==> (#[trigger] v@[7 + j])@ == strings_view(filtered@)[start
                        + j],
            decreases end - k,
        {
            v.push(filtered[k].clone());
            k = k + 1;
        }
    }

    v.push(String::new());
    let total = filtered.len();
    let mut footer = String::from_str("view ");
    let from: u64 = if total == 0 {
        0
    } else {
        (start as u64) + 1
    };
    let to: u64 = if total == 0 {
        0
    } else {
        end as u64
    };
    let fs = u64_to_string(from);
    footer.append(fs.as_str());
    footer.append("-");
    let ts = u64_to_string(to);
    footer.append(ts.as_str());
    footer.append(" of ");
    let tot = u64_to_string(total as u64);
    footer.append(tot.as_str());
    footer.append(" | offset ");
    let offs = u64_to_string(off as u64);
    footer.append(offs.as_str());
    v.push(footer);

    proof {
        let sf = strings_view(filtered@);
        let spec_v = spec_assembled(
            sf,
            opt_view(*cmd),
            opt_view(*status),
            disp@,
            start as int,
            end as int,
            off as int,
        );
        let header = seq![
            "Last run"@,
            Seq::<char>::empty(),
            "command: "@ + spec_or_dash(opt_view(*cmd)),
            "status: "@ + spec_or_dash(opt_view(*status)),
            "filter: "@ + (if disp@.len() == 0 {
                "(none)"@
            } else {
                disp@
            }),
            Seq::<char>::empty(),
            "output:"@,
        ];
        let body = if start >= end {
            seq!["(no output lines for current filter)"@]
        } else {
            sf.subrange(start as int, end as int)
        };
        let footer_s = seq![
            Seq::<char>::empty(),
            "view "@ + dec_rep(
                if sf.len() == 0 {
                    0nat
                } else {
                    (start + 1) as nat
                },
            ) + "-"@ + dec_rep(
                if sf.len() == 0 {
                    0nat
                } else {
                    end as nat
                },
            ) + " of "@ + dec_rep(sf.len()) + " | offset "@ + dec_rep(off as nat),
        ];
        assert(spec_v == header + body + footer_s);
        assert(v@.len() == 7 + body.len() + 2);
        assert forall|t: int| 0 <= t < v@.len() implies strings_view(v@)[t] == (header + body
            + footer_s)[t] by {
            if t < 7 {
                assert((header + body + footer_s)[t] == header[t]);
            } else if t < v@.len() - 2 {
                assert((header + body + footer_s)[t] == body[t - 7]);
                if start < end {
                    let j = t - 7;
                    assert(v@[7 + j]@ == strings_view(filtered@)[start + j]);
                }
            } else {
                assert((header + body + footer_s)[t] == footer_s[t - 7 - body.len()]);
            }
        }
        assert(strings_view(v@) =~= spec_v);
    }
    v
}

/// The output tab's lines; the dashboard's scroll offset is clamped to the
/// filtered scrollback as a side effect, as scrolling keys may have pushed
/// it past the oldest line.
#[verifier::loop_isolation(false)]
pub fn output_view_lines(session: &SessionState, ui: &mut UiState, viewport: usize) -> (v: Vec<
    String,
>)
    ensures
        final(ui).active_index == old(ui).active_index,
        final(ui).tab == old(ui).tab,
        final(ui).output_search == old(ui).output_search,
        final(ui).output_offset == spec_output_offset(
            strings_view(session.last_output_lines@),
            old(ui).output_search@,
            old(ui).output_offset as int,
            viewport as int,
        ),
        strings_view(v@) == spec_output_lines(
            strings_view(session.last_output_lines@),
            opt_view(session.last_command),
            opt_view(session.last_status),
            old(ui).output_search@,
            old(ui).output_offset as int,
            viewport as int,
        ),
{
    let ghost lines0 = strings_view(session.last_output_lines@);
    let q = fold_trimmed(ui.output_search.as_str());
    let disp = trim_str(ui.output_search.as_str());
    let ghost qv = q@;

    let filtered = filter_lines(&session.last_output_lines, &q);
    let total = filtered.len();
    let visible = if viewport >= 1 {
        viewport
    } else {
        1
    };
    let max_off = if total >= visible {
        total - visible
    } else {
        0
    };
    if ui.output_offset > max_off {
        ui.output_offset = max_off;
    }
    let off = ui.output_offset;
    let sum = if visible <= usize::MAX - off {
        visible + off
    } else {
        usize::MAX
    };
    let start = if total > sum {
        total - sum
    } else {
        0
    };
    let end = if visible < total - start {
        start + visible
    } else {
        total
    };
    proof {
        assert(off as int == spec_output_offset(
            lines0,
            old(ui).output_search@,
            old(ui).output_offset as int,
            viewport as int,
        ));
        assert(start as int == spec_window_start(total as int, visible as int, off as int));
        assert(end as int == spec_window_end(total as int, visible as int, start as int));
    }
    let v = assemble_output(
        &filtered,
        &session.last_command,
        &session.last_status,
        &disp,
        start,
        end,
        off,
    );
    proof {
        assert(strings_view(v@) == spec_output_lines(
            lines0,
            opt_view(session.last_command),
            opt_view(session.last_status),
            old(ui).output_search@,
            old(ui).output_offset as int,
            viewport as int,
        ));
    }
    v
}

/// The lines of the active tab: help text, the command drawer, or the
/// output view.
pub fn build_tab_lines(session: &SessionState, ui: &mut UiState, viewport: usize) -> (v: Vec<
    String,
>)
    ensures
        final(ui).active_index == old(ui).active_index,
        final(ui).tab == old(ui).tab,
        final(ui).output_search == old(ui).output_search,
        !(old(ui).tab is Output) ==> final(ui).output_offset == old(ui).output_offset,
        old(ui).tab is Help ==> strings_view(v@) == seq!["Help"@, Seq::<char>::empty()]
            + spec_help_body(),
        old(ui).tab is Output ==> strings_view(v@) == spec_output_lines(
            strings_view(session.last_output_lines@),
            opt_view(session.last_command),
            opt_view(session.last_status),
            old(ui).output_search@,
            old(ui).output_offset as int,
            viewport as int,
        ),
        old(ui).tab is Commands ==> v@.len() == 6,
{
    match ui.tab {
        DashboardTab::Help => build_help_lines(),
        DashboardTab::Commands => build_command_drawer(ui.active_index),
        DashboardTab::Output => output_view_lines(session, ui, viewport),
    }
}


} // verus!
