//! Interactive-session state: the per-session memory of last inputs, the
//! bounded output scrollback, the dashboard's tab and selection state, the
//! key-event state machine, and the planning of one subcommand run.

use vstd::prelude::*;

use crate::menu::{menu_options, spec_menu, spec_normalize_choice};
use crate::policy::{spec_policy_str, policy_as_str, PolicyMode};
use crate::text::{
    dec_rep_int, i64_to_string, strip_leading, strip_leading_str, trim_end_seq, trim_end_str,
    trim_seq,
};

verus! {

/// Most lines the output scrollback retains.
pub const OUTPUT_CAP: usize = 1200;

/// What the session remembers between commands: the last value of each
/// prompt, the last command line and status, and the bounded scrollback.
pub struct SessionState {
    pub last_search: Option<String>,
    pub last_location: Option<String>,
    pub last_username: Option<String>,
    pub last_tweet_ref: Option<String>,
    pub last_article_url: Option<String>,
    pub last_command: Option<String>,
    pub last_status: Option<String>,
    pub last_output_lines: Vec<String>,
}

impl Default for SessionState {
    /// A fresh session: nothing remembered, empty scrollback.
    fn default() -> (s: Self)
        ensures
            s.last_search is None,
            s.last_location is None,
            s.last_username is None,
            s.last_tweet_ref is None,
            s.last_article_url is None,
            s.last_command is None,
            s.last_status is None,
            s.last_output_lines@.len() == 0,
    {
        SessionState {
            last_search: None,
            last_location: None,
            last_username: None,
            last_tweet_ref: None,
            last_article_url: None,
            last_command: None,
            last_status: None,
            last_output_lines: Vec::new(),
        }
    }
}

/// A sequence of strings as a sequence of character sequences.
pub open spec fn strings_view(v: Seq<String>) -> Seq<Seq<char>> {
    v.map_values(|l: String| l@)
}

/// What appending one raw output line does to the scrollback: the line
/// loses trailing whitespace, an empty line is dropped, and when the cap
/// is passed the oldest lines are evicted.
pub open spec fn spec_append_output(lines: Seq<Seq<char>>, line: Seq<char>) -> Seq<Seq<char>> {
    let t = trim_end_seq(line);
    if t.len() == 0 {
        lines
    } else {
        let s = lines.push(t);
        if s.len() > OUTPUT_CAP {
            s.skip(s.len() - OUTPUT_CAP)
        } else {
            s
        }
    }
}

/// Append one raw line of subcommand output to the session's scrollback.
pub fn append_output(session: &mut SessionState, line: &str)
    ensures
        strings_view(final(session).last_output_lines@) == spec_append_output(
            strings_view(old(session).last_output_lines@),
            line@,
        ),
        final(session).last_search == old(session).last_search,
        final(session).last_location == old(session).last_location,
        final(session).last_username == old(session).last_username,
        final(session).last_tweet_ref == old(session).last_tweet_ref,
        final(session).last_article_url == old(session).last_article_url,
        final(session).last_command == old(session).last_command,
        final(session).last_status == old(session).last_status,
{
    let trimmed = trim_end_str(line);
    if trimmed.as_str().unicode_len() == 0 {
        proof {
            assert(trim_end_seq(line@).len() == 0);
        }
        return;
    }
    let ghost before = strings_view(old(session).last_output_lines@);
    session.last_output_lines.push(trimmed);
    proof {
        assert(strings_view(session.last_output_lines@) =~= before.push(trim_end_seq(line@)));
    }
    if session.last_output_lines.len() > OUTPUT_CAP {
        let start = session.last_output_lines.len() - OUTPUT_CAP;
        let mut kept: Vec<String> = Vec::new();
        let mut i: usize = start;
        let n = session.last_output_lines.len();
        while i < n
            invariant
                n == session.last_output_lines@.len(),
                start <= i <= n,
                kept@ == session.last_output_lines@.subrange(start as int, i as int),
            decreases n - i,
        {
            kept.push(session.last_output_lines[i].clone());
            proof {
                assert(kept@ =~= session.last_output_lines@.subrange(start as int, i + 1));
            }
            i = i + 1;
        }
        proof {
            assert(kept@ =~= session.last_output_lines@.skip(start as int));
            assert(strings_view(kept@) =~= strings_view(session.last_output_lines@).skip(
                start as int,
            ));
        }
        session.last_output_lines = kept;
    }
}

/// Scrollback law: starting at or under the cap, the scrollback stays at or
/// under the cap, and what remains is a suffix of the lines appended so far
/// — eviction is first-in, first-out.
pub proof fn lemma_scrollback_cap_and_fifo(lines: Seq<Seq<char>>, line: Seq<char>)
    requires
        lines.len() <= OUTPUT_CAP,
    ensures
        spec_append_output(lines, line).len() <= OUTPUT_CAP,
        ({
            let t = trim_end_seq(line);
            let s = if t.len() == 0 {
                lines
            } else {
                lines.push(t)
            };
            let r = spec_append_output(lines, line);
            r =~= s.skip(s.len() - r.len())
        }),
{
    let t = trim_end_seq(line);
    if t.len() != 0 {
        let s = lines.push(t);
        let r = spec_append_output(lines, line);
        if s.len() <= OUTPUT_CAP {
            assert(r =~= s.skip(0));
        }
    } else {
        assert(spec_append_output(lines, line) =~= lines.skip(0));
    }
}

/// The dashboard's three tabs.
#[derive(Clone, Copy, PartialEq, Eq, Structural, Debug)]
pub enum DashboardTab {
    Commands,
    Output,
    Help,
}

/// The tab after one press of the tab key: the cycle commands, output,
/// help, and around.
pub open spec fn spec_next_tab(t: DashboardTab) -> DashboardTab {
    match t {
        DashboardTab::Commands => DashboardTab::Output,
        DashboardTab::Output => DashboardTab::Help,
        DashboardTab::Help => DashboardTab::Commands,
    }
}

pub open spec fn spec_tab_label(t: DashboardTab) -> Seq<char> {
    match t {
        DashboardTab::Commands => "Commands"@,
        DashboardTab::Output => "Output"@,
        DashboardTab::Help => "Help"@,
    }
}

impl DashboardTab {
    /// The tab's display name.
    pub fn label(self) -> (r: &'static str)
        ensures
            r@ == spec_tab_label(self),
    {
        match self {
            DashboardTab::Commands => "Commands",
            DashboardTab::Output => "Output",
            DashboardTab::Help => "Help",
        }
    }

    /// The next tab in the cycle.
    pub fn next(self) -> (r: Self)
        ensures
            r == spec_next_tab(self),
    {
        match self {
            DashboardTab::Commands => DashboardTab::Output,
            DashboardTab::Output => DashboardTab::Help,
            DashboardTab::Help => DashboardTab::Commands,
        }
    }
}

/// The ephemeral dashboard state driven by key events.
pub struct UiState {
    pub active_index: usize,
    pub tab: DashboardTab,
    pub output_offset: usize,
    pub output_search: String,
}

/// The dashboard state is sound when its selection points at a menu entry.
pub open spec fn ui_inv(ui: UiState) -> bool {
    ui.active_index < spec_menu().len()
}

/// A key event, as the dashboard understands it.
#[derive(Clone, Copy, PartialEq, Eq, Structural, Debug)]
pub enum KeyInput {
    Up,
    Down,
    Tab,
    PageUp,
    PageDown,
    Enter,
    Esc,
    Char(char),
    Other,
}

/// What the event loop must do after one key event.
pub enum KeyAction {
    /// The state changed; redraw the dashboard.
    Redraw,
    /// Nothing changed.
    Ignore,
    /// A command was chosen; leave the selection loop with this key.
    Submit(String),
    /// Ask the user for an output filter.
    PromptFilter,
    /// Ask the user for a palette query.
    PromptPalette,
}

/// The mathematical shape of a key action.
pub ghost enum ActionModel {
    Redraw,
    Ignore,
    Submit(Seq<char>),
    PromptFilter,
    PromptPalette,
}

pub open spec fn view_action(a: KeyAction) -> ActionModel {
    match a {
        KeyAction::Redraw => ActionModel::Redraw,
        KeyAction::Ignore => ActionModel::Ignore,
        KeyAction::Submit(k) => ActionModel::Submit(k@),
        KeyAction::PromptFilter => ActionModel::PromptFilter,
        KeyAction::PromptPalette => ActionModel::PromptPalette,
    }
}

/// The selection after moving up: one step back, wrapping to the bottom.
pub open spec fn index_up(i: int) -> int {
    if i == 0 {
        spec_menu().len() - 1
    } else {
        i - 1
    }
}

/// The selection after moving down: one step forward, wrapping to the top.
pub open spec fn index_down(i: int) -> int {
    (i + 1) % (spec_menu().len() as int)
}

/// The scroll offset after paging up, saturating at the machine limit.
pub open spec fn offset_up(o: int) -> int {
    if o + 10 <= usize::MAX {
        o + 10
    } else {
        usize::MAX as int
    }
}

/// The scroll offset after paging down, saturating at zero.
pub open spec fn offset_down(o: int) -> int {
    if o >= 10 {
        o - 10
    } else {
        0
    }
}

/// The mathematical shape of the dashboard state.
pub ghost struct UiModel {
    pub active_index: int,
    pub tab: DashboardTab,
    pub output_offset: int,
    pub output_search: Seq<char>,
}

pub open spec fn view_ui(u: UiState) -> UiModel {
    UiModel {
        active_index: u.active_index as int,
        tab: u.tab,
        output_offset: u.output_offset as int,
        output_search: u.output_search@,
    }
}

/// The dashboard's transition function: what one key event does to the
/// state, and what the event loop must do next.
pub open spec fn spec_handle_key(u: UiModel, key: KeyInput) -> (UiModel, ActionModel) {
    match key {
        KeyInput::Up => (
            UiModel { active_index: index_up(u.active_index), ..u },
            ActionModel::Redraw,
        ),
        KeyInput::Down => (
            UiModel { active_index: index_down(u.active_index), ..u },
            ActionModel::Redraw,
        ),
        KeyInput::Tab => (UiModel { tab: spec_next_tab(u.tab), ..u }, ActionModel::Redraw),
        KeyInput::PageUp => if u.tab is Output {
            (UiModel { output_offset: offset_up(u.output_offset), ..u }, ActionModel::Redraw)
        } else {
            (u, ActionModel::Ignore)
        },
        KeyInput::PageDown => if u.tab is Output {
            (UiModel { output_offset: offset_down(u.output_offset), ..u }, ActionModel::Redraw)
        } else {
            (u, ActionModel::Ignore)
        },
        KeyInput::Enter => (u, ActionModel::Submit(spec_menu()[u.active_index].key)),
        KeyInput::Esc => (u, ActionModel::Submit("0"@)),
        KeyInput::Char(ch) => if ch == 'q' {
            (u, ActionModel::Submit("0"@))
        } else if ch == '?' {
            (UiModel { tab: DashboardTab::Help, ..u }, ActionModel::Redraw)
        } else if ch == '1' {
            (UiModel { tab: DashboardTab::Commands, ..u }, ActionModel::Redraw)
        } else if ch == '2' {
            (UiModel { tab: DashboardTab::Output, ..u }, ActionModel::Redraw)
        } else if ch == '3' {
            (UiModel { tab: DashboardTab::Help, ..u }, ActionModel::Redraw)
        } else if ch == 'f' || ch == 'F' {
            (u, ActionModel::PromptFilter)
        } else if ch == '/' {
            (u, ActionModel::PromptPalette)
        } else {
            match spec_normalize_choice(seq![ch]) {
                Some(k) => (u, ActionModel::Submit(k)),
                None => (u, ActionModel::Ignore),
            }
        },
        KeyInput::Other => (u, ActionModel::Ignore),
    }
}

/// Apply one key event to the dashboard state; the caller performs the
/// returned action.
pub fn handle_key(ui: &mut UiState, key: KeyInput) -> (a: KeyAction)
    requires
        ui_inv(*old(ui)),
    ensures
        ui_inv(*final(ui)),
        view_ui(*final(ui)) == spec_handle_key(view_ui(*old(ui)), key).0,
        view_action(a) == spec_handle_key(view_ui(*old(ui)), key).1,
{
    match key {
        KeyInput::Up => {
            if ui.active_index == 0 {
                ui.active_index = 6;
            } else {
                ui.active_index = ui.active_index - 1;
            }
            KeyAction::Redraw
        }
        KeyInput::Down => {
            ui.active_index = (ui.active_index + 1) % 7;
            KeyAction::Redraw
        }
        KeyInput::Tab => {
            ui.tab = ui.tab.next();
            KeyAction::Redraw
        }
        KeyInput::PageUp => {
            if matches!(ui.tab, DashboardTab::Output) {
                if ui.output_offset <= usize::MAX - 10 {
                    ui.output_offset = ui.output_offset + 10;
                } else {
                    ui.output_offset = usize::MAX;
                }
                KeyAction::Redraw
            } else {
                KeyAction::Ignore
            }
        }
        KeyInput::PageDown => {
            if matches!(ui.tab, DashboardTab::Output) {
                if ui.output_offset >= 10 {
                    ui.output_offset = ui.output_offset - 10;
                } else {
                    ui.output_offset = 0;
                }
                KeyAction::Redraw
            } else {
                KeyAction::Ignore
            }
        }
        KeyInput::Enter => {
            let menu = menu_options();
            KeyAction::Submit(menu[ui.active_index].key.clone())
        }
        KeyInput::Esc => KeyAction::Submit("0".to_owned()),
        KeyInput::Char(ch) => {
            if ch == 'q' {
                KeyAction::Submit("0".to_owned())
            } else if ch == '?' {
                ui.tab = DashboardTab::Help;
                KeyAction::Redraw
            } else if ch == '1' {
                ui.tab = DashboardTab::Commands;
                KeyAction::Redraw
            } else if ch == '2' {
                ui.tab = DashboardTab::Output;
                KeyAction::Redraw
            } else if ch == '3' {
                ui.tab = DashboardTab::Help;
                KeyAction::Redraw
            } else if ch == 'f' || ch == 'F' {
                KeyAction::PromptFilter
            } else if ch == '/' {
                KeyAction::PromptPalette
            } else {
                match crate::menu::normalize_choice_char(ch) {
                    Some(k) => KeyAction::Submit(k),
                    None => KeyAction::Ignore,
                }
            }
        }
        KeyInput::Other => KeyAction::Ignore,
    }
}

/// A remembered value, as a character sequence.
pub open spec fn opt_view(o: Option<String>) -> Option<Seq<char>> {
    match o {
        Some(s) => Some(s@),
        None => None,
    }
}

/// The mathematical shape of the session state.
pub ghost struct SessionModel {
    pub last_search: Option<Seq<char>>,
    pub last_location: Option<Seq<char>>,
    pub last_username: Option<Seq<char>>,
    pub last_tweet_ref: Option<Seq<char>>,
    pub last_article_url: Option<Seq<char>>,
    pub last_command: Option<Seq<char>>,
    pub last_status: Option<Seq<char>>,
    pub last_output_lines: Seq<Seq<char>>,
}

pub open spec fn view_session(s: SessionState) -> SessionModel {
    SessionModel {
        last_search: opt_view(s.last_search),
        last_location: opt_view(s.last_location),
        last_username: opt_view(s.last_username),
        last_tweet_ref: opt_view(s.last_tweet_ref),
        last_article_url: opt_view(s.last_article_url),
        last_command: opt_view(s.last_command),
        last_status: opt_view(s.last_status),
        last_output_lines: strings_view(s.last_output_lines@),
    }
}

/// The text shown when asking for a field, with the remembered value
/// offered as the default.
pub fn prompt_label(label: &str, previous: &Option<String>) -> (r: String)
    ensures
        match previous {
            Some(v) => r@ == label@ + " ["@ + v@ + "]: "@,
            None => r@ == label@ + ": "@,
        },
{
    match previous {
        Some(v) => {
            let mut out = label.to_owned();
            out.append(" [");
            out.append(v.as_str());
            out.append("]: ");
            out
        }
        None => crate::text::concat2(label, ": "),
    }
}

/// What a prompt answer resolves to: blank input falls back to the
/// remembered value, or to nothing.
pub open spec fn spec_resolve_input(input: Seq<char>, previous: Option<Seq<char>>) -> Seq<char> {
    if trim_seq(input).len() == 0 {
        match previous {
            Some(v) => v,
            None => Seq::empty(),
        }
    } else {
        input
    }
}

pub fn resolve_prompt_input(input: String, previous: &Option<String>) -> (r: String)
    ensures
        r@ == spec_resolve_input(input@, opt_view(*previous)),
{
    let t = crate::text::trim_str(input.as_str());
    if t.as_str().unicode_len() == 0 {
        match previous {
            Some(v) => v.clone(),
            None => String::new(),
        }
    } else {
        input
    }
}

/// Set the output filter from the prompt answer: the filter is the trimmed
/// query, scrolling restarts at the newest lines, the output tab comes to
/// the front, and the status line reports the filter.
pub fn apply_output_search(ui: &mut UiState, session: &mut SessionState, query: &str)
    ensures
        final(ui).output_search@ == trim_seq(query@),
        final(ui).output_offset == 0,
        final(ui).tab is Output,
        final(ui).active_index == old(ui).active_index,
        opt_view(final(session).last_status) == Some(
            if trim_seq(query@).len() == 0 {
                "output filter cleared"@
            } else {
                "output filter active: "@ + trim_seq(query@)
            },
        ),
        final(session).last_search == old(session).last_search,
        final(session).last_location == old(session).last_location,
        final(session).last_username == old(session).last_username,
        final(session).last_tweet_ref == old(session).last_tweet_ref,
        final(session).last_article_url == old(session).last_article_url,
        final(session).last_command == old(session).last_command,
        final(session).last_output_lines == old(session).last_output_lines,
{
    let t = crate::text::trim_str(query);
    ui.output_offset = 0;
    ui.tab = DashboardTab::Output;
    if t.as_str().unicode_len() == 0 {
        session.last_status = Some("output filter cleared".to_owned());
    } else {
        session.last_status = Some(crate::text::concat2("output filter active: ", t.as_str()));
    }
    ui.output_search = t;
}

/// Run a palette query: on a match, move the selection there and hand back
/// that option's key; otherwise report the miss on the status line.
pub fn apply_palette(ui: &mut UiState, session: &mut SessionState, query: &str) -> (r: Option<
    String,
>)
    requires
        ui_inv(*old(ui)),
    ensures
        ui_inv(*final(ui)),
        r matches Some(k) ==> exists|i: int|
            0 <= i < spec_menu().len() && final(ui).active_index == i && k@
                == #[trigger] spec_menu()[i].key,
        r is Some ==> {
            &&& *final(session) == *old(session)
            &&& final(ui).tab == old(ui).tab
            &&& final(ui).output_offset == old(ui).output_offset
            &&& final(ui).output_search == old(ui).output_search
        },
        r is None ==> {
            &&& *final(ui) == *old(ui)
            &&& opt_view(final(session).last_status) == Some(
                if trim_seq(query@).len() == 0 {
                    "no palette match: (empty)"@
                } else {
                    "no palette match: "@ + trim_seq(query@)
                },
            )
            &&& final(session).last_command == old(session).last_command
            &&& final(session).last_output_lines == old(session).last_output_lines
        },
{
    match crate::menu::match_palette(query) {
        Some(index) => {
            let menu = menu_options();
            ui.active_index = index;
            Some(menu[index].key.clone())
        }
        None => {
            let t = crate::text::trim_str(query);
            if t.as_str().unicode_len() == 0 {
                session.last_status = Some("no palette match: (empty)".to_owned());
            } else {
                session.last_status = Some(
                    crate::text::concat2("no palette match: ", t.as_str()),
                );
            }
            None
        }
    }
}


/// What one resolved menu choice leads to.
pub enum ChoicePlan {
    /// Leave the interactive session.
    Exit,
    /// Run the current executable again with these subcommand arguments.
    Run(Vec<String>),
    /// A required field was missing; the status line already says so.
    Rejected,
    /// Not a key of the menu; nothing to do.
    Ignore,
}

/// The mathematical shape of a choice plan.
pub ghost enum PlanModel {
    Exit,
    Run(Seq<Seq<char>>),
    Rejected,
    Ignore,
}

pub open spec fn view_plan(p: ChoicePlan) -> PlanModel {
    match p {
        ChoicePlan::Exit => PlanModel::Exit,
        ChoicePlan::Run(args) => PlanModel::Run(strings_view(args@)),
        ChoicePlan::Rejected => PlanModel::Rejected,
        ChoicePlan::Ignore => PlanModel::Ignore,
    }
}

/// What one choice does to the session, and what it asks the caller to
/// run, given the resolved prompt answer: required fields reject blank
/// answers, each field is remembered for the next prompt, and the shown
/// command line matches the arguments handed back.
pub open spec fn spec_plan_choice(sess: SessionModel, key: Seq<char>, input: Seq<char>) -> (
    SessionModel,
    PlanModel,
) {
    if key == "0"@ {
        (sess, PlanModel::Exit)
    } else if key == "1"@ {
        if input.len() == 0 {
            (
                SessionModel { last_status: Some("query is required"@), ..sess },
                PlanModel::Rejected,
            )
        } else {
            (
                SessionModel {
                    last_search: Some(input),
                    last_command: Some("xint search "@ + input),
                    ..sess
                },
                PlanModel::Run(seq!["search"@, input]),
            )
        }
    } else if key == "2"@ {
        if input.len() == 0 {
            (
                SessionModel {
                    last_location: Some(input),
                    last_command: Some("xint trends"@),
                    ..sess
                },
                PlanModel::Run(seq!["trends"@]),
            )
        } else {
            (
                SessionModel {
                    last_location: Some(input),
                    last_command: Some("xint trends "@ + input),
                    ..sess
                },
                PlanModel::Run(seq!["trends"@, input]),
            )
        }
    } else if key == "3"@ {
        let username = strip_leading(input, '@');
        if username.len() == 0 {
            (
                SessionModel { last_status: Some("username is required"@), ..sess },
                PlanModel::Rejected,
            )
        } else {
            (
                SessionModel {
                    last_username: Some(username),
                    last_command: Some("xint profile "@ + username),
                    ..sess
                },
                PlanModel::Run(seq!["profile"@, username]),
            )
        }
    } else if key == "4"@ {
        if input.len() == 0 {
            (
                SessionModel { last_status: Some("tweet id/url is required"@), ..sess },
                PlanModel::Rejected,
            )
        } else {
            (
                SessionModel {
                    last_tweet_ref: Some(input),
                    last_command: Some("xint thread "@ + input),
                    ..sess
                },
                PlanModel::Run(seq!["thread"@, input]),
            )
        }
    } else if key == "5"@ {
        if input.len() == 0 {
            (
                SessionModel { last_status: Some("article url is required"@), ..sess },
                PlanModel::Rejected,
            )
        } else {
            (
                SessionModel {
                    last_article_url: Some(input),
                    last_command: Some("xint article "@ + input),
                    ..sess
                },
                PlanModel::Run(seq!["article"@, input]),
            )
        }
    } else if key == "6"@ {
        (
            SessionModel { last_command: Some("xint --help"@), ..sess },
            PlanModel::Run(seq!["--help"@]),
        )
    } else {
        (sess, PlanModel::Ignore)
    }
}

/// Apply one resolved choice to the session and plan what to run.
pub fn plan_choice(session: &mut SessionState, key: &str, input: String) -> (p: ChoicePlan)
    ensures
        ({
            let r = spec_plan_choice(view_session(*old(session)), key@, input@);
            view_session(*final(session)) == r.0 && view_plan(p) == r.1
        }),
{
    if crate::text::str_eq_str(key, "0") {
        ChoicePlan::Exit
    } else if crate::text::str_eq_str(key, "1") {
        if input.as_str().unicode_len() == 0 {
            session.last_status = Some("query is required".to_owned());
            ChoicePlan::Rejected
        } else {
            session.last_search = Some(input.clone());
            session.last_command = Some(crate::text::concat2("xint search ", input.as_str()));
            let mut args: Vec<String> = Vec::new();
            args.push("search".to_owned());
            args.push(input);
            proof {
                assert(strings_view(args@) =~= seq!["search"@, args@[1]@]);
            }
            ChoicePlan::Run(args)
        }
    } else if crate::text::str_eq_str(key, "2") {
        session.last_location = Some(input.clone());
        if input.as_str().unicode_len() == 0 {
            session.last_command = Some("xint trends".to_owned());
            let mut args: Vec<String> = Vec::new();
            args.push("trends".to_owned());
            proof {
                assert(strings_view(args@) =~= seq!["trends"@]);
            }
            ChoicePlan::Run(args)
        } else {
            session.last_command = Some(crate::text::concat2("xint trends ", input.as_str()));
            let mut args: Vec<String> = Vec::new();
            args.push("trends".to_owned());
            args.push(input);
            proof {
                assert(strings_view(args@) =~= seq!["trends"@, args@[1]@]);
            }
            ChoicePlan::Run(args)
        }
    } else if crate::text::str_eq_str(key, "3") {
        let username = strip_leading_str(input.as_str(), '@');
        if username.as_str().unicode_len() == 0 {
            session.last_status = Some("username is required".to_owned());
            ChoicePlan::Rejected
        } else {
            session.last_username = Some(username.clone());
            session.last_command = Some(crate::text::concat2("xint profile ", username.as_str()));
            let mut args: Vec<String> = Vec::new();
            args.push("profile".to_owned());
            args.push(username);
            proof {
                assert(strings_view(args@) =~= seq!["profile"@, args@[1]@]);
            }
            ChoicePlan::Run(args)
        }
    } else if crate::text::str_eq_str(key, "4") {
        if input.as_str().unicode_len() == 0 {
            session.last_status = Some("tweet id/url is required".to_owned());
            ChoicePlan::Rejected
        } else {
            session.last_tweet_ref = Some(input.clone());
            session.last_command = Some(crate::text::concat2("xint thread ", input.as_str()));
            let mut args: Vec<String> = Vec::new();
            args.push("thread".to_owned());
            args.push(input);
            proof {
                assert(strings_view(args@) =~= seq!["thread"@, args@[1]@]);
            }
            ChoicePlan::Run(args)
        }
    } else if crate::text::str_eq_str(key, "5") {
        if input.as_str().unicode_len() == 0 {
            session.last_status = Some("article url is required".to_owned());
            ChoicePlan::Rejected
        } else {
            session.last_article_url = Some(input.clone());
            session.last_command = Some(crate::text::concat2("xint article ", input.as_str()));
            let mut args: Vec<String> = Vec::new();
            args.push("article".to_owned());
            args.push(input);
            proof {
                assert(strings_view(args@) =~= seq!["article"@, args@[1]@]);
            }
            ChoicePlan::Run(args)
        }
    } else if crate::text::str_eq_str(key, "6") {
        session.last_command = Some("xint --help".to_owned());
        let mut args: Vec<String> = Vec::new();
        args.push("--help".to_owned());
        proof {
            assert(strings_view(args@) =~= seq!["--help"@]);
        }
        ChoicePlan::Run(args)
    } else {
        ChoicePlan::Ignore
    }
}

/// Start a subcommand run: the scrollback empties and scrolling restarts.
pub fn begin_run(session: &mut SessionState, ui: &mut UiState)
    ensures
        final(session).last_output_lines@.len() == 0,
        final(ui).output_offset == 0,
        final(session).last_search == old(session).last_search,
        final(session).last_location == old(session).last_location,
        final(session).last_username == old(session).last_username,
        final(session).last_tweet_ref == old(session).last_tweet_ref,
        final(session).last_article_url == old(session).last_article_url,
        final(session).last_command == old(session).last_command,
        final(session).last_status == old(session).last_status,
        final(ui).active_index == old(ui).active_index,
        final(ui).tab == old(ui).tab,
        final(ui).output_search == old(ui).output_search,
{
    session.last_output_lines = Vec::new();
    ui.output_offset = 0;
}

/// The status text after a subcommand ends: plain success, or the exit
/// code, or a note that a signal ended it.
pub open spec fn spec_run_status(success: bool, code: Option<int>) -> Seq<char> {
    if success {
        "success"@
    } else {
        match code {
            Some(c) => "failed (exit "@ + dec_rep_int(c) + ")"@,
            None => "failed (exit signal)"@,
        }
    }
}

/// Record how a subcommand ended on the status line.
pub fn finish_run(session: &mut SessionState, success: bool, code: Option<i64>)
    ensures
        opt_view(final(session).last_status) == Some(
            spec_run_status(
                success,
                match code {
                    Some(c) => Some(c as int),
                    None => None,
                },
            ),
        ),
        final(session).last_search == old(session).last_search,
        final(session).last_location == old(session).last_location,
        final(session).last_username == old(session).last_username,
        final(session).last_tweet_ref == old(session).last_tweet_ref,
        final(session).last_article_url == old(session).last_article_url,
        final(session).last_command == old(session).last_command,
        final(session).last_output_lines == old(session).last_output_lines,
{
    if success {
        session.last_status = Some("success".to_owned());
    } else {
        match code {
            Some(c) => {
                let num = i64_to_string(c);
                session.last_status = Some(
                    crate::text::concat3("failed (exit ", num.as_str(), ")"),
                );
            }
            None => {
                session.last_status = Some("failed (exit signal)".to_owned());
            }
        }
    }
}

/// The spinner frame shown while a subcommand runs.
pub open spec fn spec_spinner(i: int) -> Seq<char> {
    if i % 4 == 0 {
        "|"@
    } else if i % 4 == 1 {
        "/"@
    } else if i % 4 == 2 {
        "-"@
    } else {
        "\\"@
    }
}

pub fn spinner_frame(index: usize) -> (r: &'static str)
    ensures
        r@ == spec_spinner(index as int),
{
    let m = index % 4;
    if m == 0 {
        "|"
    } else if m == 1 {
        "/"
    } else if m == 2 {
        "-"
    } else {
        "\\"
    }
}

/// The status text shown while a subcommand runs.
pub fn running_status(index: usize) -> (r: String)
    ensures
        r@ == "running "@ + spec_spinner(index as int),
{
    crate::text::concat2("running ", spinner_frame(index))
}

/// The full argument list for re-invoking the executable: the policy flag
/// and mode, then the subcommand's own arguments.
pub fn subcommand_argv(mode: PolicyMode, args: &Vec<String>) -> (v: Vec<String>)
    ensures
        strings_view(v@) == seq!["--policy"@, spec_policy_str(mode)] + strings_view(args@),
{
    let mut v: Vec<String> = Vec::new();
    v.push("--policy".to_owned());
    v.push(policy_as_str(mode).to_owned());
    let mut i: usize = 0;
    while i < args.len()
        invariant
            i <= args@.len(),
            v@.len() == 2 + i,
            v@[0]@ == "--policy"@,
            v@[1]@ == spec_policy_str(mode),
            forall|j: int| 0 <= j < i ==> v@[2 + j]@ == #[trigger] args@[j]@,
        decreases args@.len() - i,
    {
        v.push(args[i].clone());
        i = i + 1;
    }
    proof {
        assert(strings_view(v@) =~= seq!["--policy"@, spec_policy_str(mode)] + strings_view(
            args@,
        ));
    }
    v
}


} // verus!
