use xint::menu::{command_meta, match_palette, menu_options, normalize_choice, score_option};
use xint::session::{
    append_output, apply_output_search, apply_palette, handle_key, plan_choice, resolve_prompt_input,
    finish_run, prompt_label, running_status, spinner_frame, subcommand_argv, ChoicePlan,
    DashboardTab, KeyAction, KeyInput, SessionState, UiState,
};
use xint::policy::PolicyMode;

fn fresh_ui() -> UiState {
    UiState {
        active_index: 0,
        tab: DashboardTab::Output,
        output_offset: 0,
        output_search: String::new(),
    }
}

#[test]
fn normalize_choice_supports_numeric_and_alias_inputs() {
    assert_eq!(normalize_choice("1"), Some("1".to_string()));
    assert_eq!(normalize_choice("search"), Some("1".to_string()));
    assert_eq!(normalize_choice("Q"), Some("0".to_string()));
}

#[test]
fn normalize_choice_rejects_invalid_values() {
    assert_eq!(normalize_choice(""), None);
    assert_eq!(normalize_choice("unknown"), None);
}

#[test]
fn palette_matches_expected_entries() {
    assert_eq!(match_palette("trend"), Some(1));
    assert_eq!(match_palette("profile"), Some(2));
    assert_eq!(match_palette("zzz"), None);
}

#[test]
fn normalize_choice_trims_and_folds_case() {
    assert_eq!(normalize_choice("  SEARCH  "), Some("1".to_string()));
    assert_eq!(normalize_choice("S"), Some("1".to_string()));
    assert_eq!(normalize_choice("?"), Some("6".to_string()));
    assert_eq!(normalize_choice("   "), None);
}

#[test]
fn every_declared_alias_resolves_to_its_key() {
    let menu = menu_options();
    for option in &menu {
        assert_eq!(normalize_choice(&option.key), Some(option.key.clone()));
        for alias in &option.aliases {
            assert_eq!(normalize_choice(alias), Some(option.key.clone()));
        }
    }
}

#[test]
fn palette_scoring_weights_are_exact() {
    let menu = menu_options();
    // "search": label match 90, alias match 80, label prefix 70,
    // alias prefix 60, label substring 40.
    assert_eq!(score_option(&menu[0], "search"), 340);
    // exact key only.
    assert_eq!(score_option(&menu[0], "1"), 100);
    // empty queries score nothing.
    assert_eq!(score_option(&menu[0], ""), 0);
    // "url" appears only in hints of thread/article options.
    assert_eq!(score_option(&menu[3], "url"), 20);
}

#[test]
fn palette_key_match_outranks_hint_match() {
    let menu = menu_options();
    let key_score = score_option(&menu[1], "2");
    let hint_score = score_option(&menu[3], "url");
    assert!(key_score > hint_score);
    assert_eq!(match_palette("2"), Some(1));
}

#[test]
fn palette_prefers_first_declared_on_tie() {
    // "t" is an alias of Trends (index 1) and a prefix of both Thread's
    // label and aliases; the higher score wins, not declaration order.
    assert_eq!(match_palette("t"), Some(1));
    // "xint" appears in example text of no menu label, no match at all.
    assert_eq!(match_palette("zzzz"), None);
}

#[test]
fn command_meta_falls_back_for_unknown_keys() {
    let m = command_meta("9");
    assert_eq!(m.summary, "No metadata available.");
    assert_eq!(m.example, "-");
    assert_eq!(m.cost_hint, "Unknown");
    let m1 = command_meta("1");
    assert_eq!(m1.cost_hint, "Low-medium (depends on query depth)");
}

#[test]
fn scrollback_caps_at_limit_and_drops_oldest() {
    let mut session = SessionState::default();
    for i in 0..1205u32 {
        append_output(&mut session, &format!("line {}", i));
    }
    assert_eq!(session.last_output_lines.len(), 1200);
    assert_eq!(session.last_output_lines[0], "line 5");
    assert_eq!(session.last_output_lines[1199], "line 1204");
}

#[test]
fn scrollback_trims_line_ends_and_drops_blanks() {
    let mut session = SessionState::default();
    append_output(&mut session, " keep me \r\n");
    append_output(&mut session, "   \r\n");
    assert_eq!(session.last_output_lines, vec![" keep me".to_string()]);
}

#[test]
fn key_events_drive_selection_and_tabs() {
    let mut ui = fresh_ui();
    assert!(matches!(handle_key(&mut ui, KeyInput::Up), KeyAction::Redraw));
    assert_eq!(ui.active_index, 6);
    assert!(matches!(handle_key(&mut ui, KeyInput::Down), KeyAction::Redraw));
    assert_eq!(ui.active_index, 0);
    ui.tab = DashboardTab::Commands;
    handle_key(&mut ui, KeyInput::Tab);
    assert!(matches!(ui.tab, DashboardTab::Output));
    // paging only acts on the output tab
    handle_key(&mut ui, KeyInput::PageUp);
    assert_eq!(ui.output_offset, 10);
    handle_key(&mut ui, KeyInput::PageDown);
    assert_eq!(ui.output_offset, 0);
    ui.tab = DashboardTab::Help;
    assert!(matches!(handle_key(&mut ui, KeyInput::PageUp), KeyAction::Ignore));
}

#[test]
fn key_shortcuts_submit_choices() {
    let mut ui = fresh_ui();
    match handle_key(&mut ui, KeyInput::Char('s')) {
        KeyAction::Submit(k) => assert_eq!(k, "1"),
        _ => panic!("expected a submitted choice"),
    }
    match handle_key(&mut ui, KeyInput::Char('q')) {
        KeyAction::Submit(k) => assert_eq!(k, "0"),
        _ => panic!("expected exit"),
    }
    match handle_key(&mut ui, KeyInput::Esc) {
        KeyAction::Submit(k) => assert_eq!(k, "0"),
        _ => panic!("expected exit"),
    }
    assert!(matches!(handle_key(&mut ui, KeyInput::Char('/')), KeyAction::PromptPalette));
    assert!(matches!(handle_key(&mut ui, KeyInput::Char('F')), KeyAction::PromptFilter));
    assert!(matches!(handle_key(&mut ui, KeyInput::Char('*')), KeyAction::Ignore));
    handle_key(&mut ui, KeyInput::Char('2'));
    assert!(matches!(ui.tab, DashboardTab::Output));
}

#[test]
fn prompt_text_and_resolution_use_remembered_values() {
    let prev = Some("rust".to_string());
    assert_eq!(prompt_label("Search query", &prev), "Search query [rust]: ");
    assert_eq!(prompt_label("Search query", &None), "Search query: ");
    assert_eq!(resolve_prompt_input("  ".to_string(), &prev), "rust");
    assert_eq!(resolve_prompt_input("new".to_string(), &prev), "new");
    assert_eq!(resolve_prompt_input(" ".to_string(), &None), "");
}

#[test]
fn plan_choice_builds_commands_and_remembers_fields() {
    let mut session = SessionState::default();
    match plan_choice(&mut session, "1", "rust agents".to_string()) {
        ChoicePlan::Run(args) => assert_eq!(args, vec!["search".to_string(), "rust agents".to_string()]),
        _ => panic!("expected a run plan"),
    }
    assert_eq!(session.last_search, Some("rust agents".to_string()));
    assert_eq!(session.last_command, Some("xint search rust agents".to_string()));

    match plan_choice(&mut session, "3", "@someone".to_string()) {
        ChoicePlan::Run(args) => assert_eq!(args, vec!["profile".to_string(), "someone".to_string()]),
        _ => panic!("expected a run plan"),
    }
    assert_eq!(session.last_username, Some("someone".to_string()));

    match plan_choice(&mut session, "2", String::new()) {
        ChoicePlan::Run(args) => assert_eq!(args, vec!["trends".to_string()]),
        _ => panic!("expected a run plan"),
    }
    assert_eq!(session.last_command, Some("xint trends".to_string()));

    assert!(matches!(plan_choice(&mut session, "0", String::new()), ChoicePlan::Exit));
}

#[test]
fn plan_choice_rejects_missing_required_fields() {
    let mut session = SessionState::default();
    assert!(matches!(plan_choice(&mut session, "1", String::new()), ChoicePlan::Rejected));
    assert_eq!(session.last_status, Some("query is required".to_string()));
    assert!(matches!(plan_choice(&mut session, "3", "@".to_string()), ChoicePlan::Rejected));
    assert_eq!(session.last_status, Some("username is required".to_string()));
    assert!(matches!(plan_choice(&mut session, "4", String::new()), ChoicePlan::Rejected));
    assert_eq!(session.last_status, Some("tweet id/url is required".to_string()));
    assert!(matches!(plan_choice(&mut session, "5", String::new()), ChoicePlan::Rejected));
    assert_eq!(session.last_status, Some("article url is required".to_string()));
}

#[test]
fn run_bookkeeping_formats_status_lines() {
    let mut session = SessionState::default();
    finish_run(&mut session, true, None);
    assert_eq!(session.last_status, Some("success".to_string()));
    finish_run(&mut session, false, Some(3));
    assert_eq!(session.last_status, Some("failed (exit 3)".to_string()));
    finish_run(&mut session, false, None);
    assert_eq!(session.last_status, Some("failed (exit signal)".to_string()));
    assert_eq!(spinner_frame(0), "|");
    assert_eq!(spinner_frame(5), "/");
    assert_eq!(running_status(2), "running -");
    let argv = subcommand_argv(PolicyMode::ReadOnly, &vec!["search".to_string(), "q".to_string()]);
    assert_eq!(
        argv,
        vec!["--policy".to_string(), "read_only".to_string(), "search".to_string(), "q".to_string()]
    );
}

#[test]
fn output_search_and_palette_update_state() {
    let mut ui = fresh_ui();
    let mut session = SessionState::default();
    apply_output_search(&mut ui, &mut session, "  ERR  ");
    assert_eq!(ui.output_search, "ERR");
    assert!(matches!(ui.tab, DashboardTab::Output));
    assert_eq!(session.last_status, Some("output filter active: ERR".to_string()));
    apply_output_search(&mut ui, &mut session, "   ");
    assert_eq!(session.last_status, Some("output filter cleared".to_string()));

    let picked = apply_palette(&mut ui, &mut session, "profile");
    assert_eq!(picked, Some("3".to_string()));
    assert_eq!(ui.active_index, 2);
    let missed = apply_palette(&mut ui, &mut session, "zzz");
    assert_eq!(missed, None);
    assert_eq!(session.last_status, Some("no palette match: zzz".to_string()));
    let blank = apply_palette(&mut ui, &mut session, "  ");
    assert_eq!(blank, None);
    assert_eq!(session.last_status, Some("no palette match: (empty)".to_string()));
}
