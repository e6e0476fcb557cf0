use xint::json::{json_text, Json};
use xint::render::{
    build_command_drawer, build_help_lines, build_menu_lines, output_view_lines, plain_menu_lines,
    theme_for_name,
};
use xint::frame::{framed_double_pane, framed_single_pane, tabs_header, use_double_pane};
use xint::session::{DashboardTab, SessionState, UiState};
use xint::text::{
    cents_to_string, clip_text, i64_to_string, pad_text, replace_char, strip_leading_str,
    trim_end_str, trim_str, u64_to_string,
};

#[test]
fn decimal_formatting_is_exact() {
    assert_eq!(u64_to_string(0), "0");
    assert_eq!(u64_to_string(40960), "40960");
    assert_eq!(i64_to_string(-5), "-5");
    assert_eq!(i64_to_string(i64::MIN), "-9223372036854775808");
    assert_eq!(cents_to_string(0), "0.00");
    assert_eq!(cents_to_string(7), "0.07");
    assert_eq!(cents_to_string(1234), "12.34");
}

#[test]
fn trimming_and_replacement_match_their_contracts() {
    assert_eq!(trim_str("  a b  "), "a b");
    assert_eq!(trim_str("\u{2002}x\u{2002}"), "x");
    assert_eq!(trim_end_str(" x \t\r\n"), " x");
    assert_eq!(strip_leading_str("@@name", '@'), "name");
    assert_eq!(strip_leading_str("name", '@'), "name");
    assert_eq!(replace_char("a b c", ' ', "%20"), "a%20b%20c");
}

#[test]
fn clipping_and_padding_are_width_exact() {
    assert_eq!(clip_text("hello world", 8), "hello...");
    assert_eq!(clip_text("hello", 8), "hello");
    assert_eq!(clip_text("hello", 2), "..");
    assert_eq!(clip_text("hello", 0), "");
    assert_eq!(pad_text("hi", 5), "hi   ");
    assert_eq!(pad_text("hello world", 5), "he...");
}

#[test]
fn json_emission_is_exact_and_escapes_strings() {
    let v = Json::Obj(vec![
        ("a".to_string(), Json::Int(-3)),
        ("b".to_string(), Json::Arr(vec![Json::Null, Json::Bool(true), Json::Money(150)])),
        ("c".to_string(), Json::Str("say \"hi\"\n\t\\ \u{1}".to_string())),
        ("d".to_string(), Json::Raw("[1,2]".to_string())),
    ]);
    assert_eq!(
        json_text(&v),
        "{\"a\":-3,\"b\":[null,true,1.50],\"c\":\"say \\\"hi\\\"\\n\\t\\\\ \\u0001\",\"d\":[1,2]}"
    );
    assert_eq!(json_text(&Json::Obj(vec![])), "{}");
    assert_eq!(json_text(&Json::Arr(vec![])), "[]");
}

#[test]
fn themes_fall_back_to_classic() {
    let neon = theme_for_name("NEON");
    assert_eq!(neon.accent, "\u{1b}[1;95m");
    let minimal = theme_for_name("minimal");
    assert_eq!(minimal.border, "");
    let classic = theme_for_name("anything else");
    assert_eq!(classic.accent, "\u{1b}[1;36m");
    assert_eq!(classic.border, "\u{1b}[2m");
}

#[test]
fn menu_lines_mark_the_selection() {
    let lines = build_menu_lines(1);
    assert_eq!(lines.len(), 16);
    assert_eq!(lines[0], "Menu");
    assert_eq!(lines[1], "");
    assert_eq!(lines[2], "  1) Search (search, s)");
    assert_eq!(lines[4], "> 2) Trends (trends, trend, t)");
    assert_eq!(lines[5], "    location name or blank for global");
    let plain = plain_menu_lines();
    assert_eq!(plain[0], "=== xint interactive ===");
    assert_eq!(plain[1], "1) Search (search, s)");
    assert_eq!(plain[2], "   - keyword, topic, or boolean query");
}

#[test]
fn command_drawer_shows_the_selected_option() {
    let lines = build_command_drawer(0);
    assert_eq!(lines.len(), 6);
    assert_eq!(lines[2], "Selected: Search");
    assert_eq!(lines[3], "Summary: Discover relevant posts with ranked result quality.");
    // an out-of-range selection falls back to the first option
    let fallback = build_command_drawer(99);
    assert_eq!(fallback[2], "Selected: Search");
}

#[test]
fn help_lines_list_the_hotkeys() {
    let lines = build_help_lines();
    assert_eq!(lines.len(), 11);
    assert_eq!(lines[0], "Help");
    assert_eq!(lines[2], "Hotkeys");
    assert_eq!(lines[10], "  q or Esc: Exit");
}

#[test]
fn output_view_filters_scrolls_and_reports() {
    let mut session = SessionState::default();
    session.last_command = Some("xint search rust".to_string());
    session.last_status = Some("success".to_string());
    session.last_output_lines = vec![
        "alpha one".to_string(),
        "beta two".to_string(),
        "ALPHA three".to_string(),
        "gamma four".to_string(),
    ];
    let mut ui = UiState {
        active_index: 0,
        tab: DashboardTab::Output,
        output_offset: 0,
        output_search: "alpha".to_string(),
    };
    let lines = output_view_lines(&session, &mut ui, 10);
    assert_eq!(lines[2], "command: xint search rust");
    assert_eq!(lines[3], "status: success");
    assert_eq!(lines[4], "filter: alpha");
    assert_eq!(lines[6], "output:");
    assert_eq!(lines[7], "alpha one");
    assert_eq!(lines[8], "ALPHA three");
    assert_eq!(lines[lines.len() - 1], "view 1-2 of 2 | offset 0");

    // a huge offset is clamped back to the filtered extent
    ui.output_offset = 50;
    ui.output_search = String::new();
    let all = output_view_lines(&session, &mut ui, 2);
    assert_eq!(ui.output_offset, 2);
    assert_eq!(all[7], "alpha one");
    assert_eq!(all[8], "beta two");
    assert_eq!(all[all.len() - 1], "view 1-2 of 4 | offset 2");

    // a filter nothing matches says so
    ui.output_search = "zzz".to_string();
    let none = output_view_lines(&session, &mut ui, 10);
    assert_eq!(none[7], "(no output lines for current filter)");
    assert_eq!(none[none.len() - 1], "view 0-0 of 0 | offset 0");
}

#[test]
fn single_pane_frames_its_content() {
    let theme = theme_for_name("minimal");
    let content = vec!["> 1) Search".to_string(), "    hint".to_string()];
    let title = " xint dashboard ";
    let footer = " q Quit ";
    let v = framed_single_pane(&theme, &content, 40, 16, title, footer);
    assert_eq!(v.len(), 16);
    assert_eq!(v[0], "+--------------------------------------+\u{1b}[0m");
    assert_eq!(v[1], "|\u{1b}[0m xint dashboard                       |\u{1b}[0m");
    assert_eq!(v[3], "|\u{1b}[0m\u{1b}[1m> 1) Search                           \u{1b}[0m|");
    assert_eq!(v[4], "|\u{1b}[0m    hint                              \u{1b}[0m|");
    assert_eq!(v[5], "|\u{1b}[0m                                      |");
    assert_eq!(v[15], "+--------------------------------------+\u{1b}[0m");
}

#[test]
fn double_pane_splits_the_width() {
    let theme = theme_for_name("minimal");
    let left = vec!["> 1) Search".to_string()];
    let right = vec!["Last run".to_string()];
    let v = framed_double_pane(&theme, &left, &right, 120, 30, " title ", " footer ");
    assert_eq!(v.len(), 29);
    assert!(v[2].starts_with("+"));
    assert!(v[2].contains("+ +"));
    assert!(v[3].contains("> 1) Search"));
    assert!(v[3].contains("Last run"));
    assert!(use_double_pane(120));
    assert!(!use_double_pane(100));
}

#[test]
fn tab_strip_highlights_the_active_tab() {
    let theme = theme_for_name("minimal");
    let strip = tabs_header(&theme, DashboardTab::Output);
    assert_eq!(strip, "[ 1:Commands ] \u{1b}[1m[ 2:Output ]\u{1b}[0m [ 3:Help ]");
}
