use hop_server::model::Asset;
use hop_server::tui::{map_event, InputAdapter, KeyPress, TermEvent, TermKey, TuiAction, TuiApp, TuiInput, MODIFIER_CTRL};
use hop_server::tui_view::{
    asset_lines, empty_assets_message, header_counts, help_keys, scroll_offset, status_line, status_line_height,
    truncate_to_width, viewport_size, visible_asset_count,
};

fn asset(name: &str) -> Asset {
    Asset {
        id: name.to_string(),
        name: name.to_string(),
        protocol: "ssh".to_string(),
        preset: None,
        hostname: "127.0.0.1".to_string(),
        port: 22,
        description: None,
        tags: vec![],
        credential_id: None,
        created_at: None,
        updated_at: None,
    }
}

fn width(text: &str) -> usize {
    ratatui::text::Span::raw(text).width()
}

#[test]
fn fuzzy_filter_selects_assets() {
    let mut app = TuiApp::new(vec![asset("web-prod-01"), asset("db-prod-01")]);
    app.query = "web".to_string();
    assert_eq!(app.filtered_assets()[0].name, "web-prod-01");
}

#[test]
fn cached_filter_refreshes_when_query_changes() {
    let mut app = TuiApp::new(vec![asset("web-prod-01"), asset("db-prod-01")]);

    assert_eq!(app.filtered_assets().len(), 2);
    app.query = "db".to_string();
    assert_eq!(app.filtered_assets()[0].name, "db-prod-01");
}

#[test]
fn enter_returns_selected_asset() {
    let mut app = TuiApp::new(vec![asset("web-prod-01")]);
    let action = app.handle_input(TuiInput::Enter);
    match action {
        TuiAction::Connect(asset) => assert_eq!(asset.name, "web-prod-01"),
        _ => panic!("expected connect"),
    }
}

#[test]
fn parses_common_tui_keys() {
    let mut input = InputAdapter::new();
    assert_eq!(input.parse(b"/"), vec![TuiInput::Char('/')]);
    assert_eq!(input.parse(b"\r"), vec![TuiInput::Enter]);
    assert_eq!(input.parse(b"\x03"), vec![TuiInput::CtrlC]);
    assert_eq!(input.parse(b"\x1b[A"), vec![TuiInput::Up]);
}

#[test]
fn key_mapping_honours_modifiers() {
    let ctrl_c = TermEvent::Key(KeyPress { key: TermKey::Char('c'), modifiers: MODIFIER_CTRL });
    assert_eq!(map_event(ctrl_c), Some(TuiInput::CtrlC));
    let plain = TermEvent::Key(KeyPress { key: TermKey::Char('x'), modifiers: 0 });
    assert_eq!(map_event(plain), Some(TuiInput::Char('x')));
    assert_eq!(map_event(TermEvent::Key(KeyPress { key: TermKey::Other, modifiers: 0 })), None);
    assert_eq!(map_event(TermEvent::Other), None);
}

#[test]
fn search_keys_edit_the_query_and_reset_the_selection() {
    let mut app = TuiApp::new(vec![asset("a"), asset("b"), asset("c")]);
    assert!(matches!(app.handle_input(TuiInput::Down), TuiAction::Idle));
    assert_eq!(app.selected, 1);
    app.handle_input(TuiInput::Char('/'));
    assert!(app.searching);
    assert_eq!(app.selected, 0);
    app.handle_input(TuiInput::Char('q'));
    assert_eq!(app.query, "q");
    app.handle_input(TuiInput::Backspace);
    assert_eq!(app.query, "");
    app.handle_input(TuiInput::Escape);
    assert!(!app.searching);
    assert!(matches!(app.handle_input(TuiInput::Char('q')), TuiAction::Quit));
    app.handle_input(TuiInput::Down);
    app.handle_input(TuiInput::Down);
    app.handle_input(TuiInput::Down);
    assert_eq!(app.selected, 2);
    app.handle_input(TuiInput::Up);
    assert_eq!(app.selected, 1);
    app.handle_input(TuiInput::CtrlC);
    assert_eq!(app.selected, 0);
}

#[test]
fn enter_on_an_empty_list_does_nothing() {
    let mut app = TuiApp::new(vec![]);
    assert!(matches!(app.handle_input(TuiInput::Enter), TuiAction::Idle));
    assert!(app.selected_asset().is_none());
}

#[test]
fn active_filter_remains_visible_after_search_closes() {
    let mut app = TuiApp::new(vec![asset("web-prod-01"), asset("db-prod-01")]);
    app.query = "web".to_string();
    app.searching = false;

    assert_eq!(status_line_height(app.searching, &app.query), 1);
    let (prompt, content) = status_line(app.searching, &app.query, 80);
    assert_eq!(prompt, "filter");
    assert_eq!(content, "web");
}

#[test]
fn empty_filtered_list_explains_that_no_assets_match() {
    let mut app = TuiApp::new(vec![asset("web-prod-01")]);
    app.query = "missing".to_string();

    assert!(app.filtered_assets().is_empty());
    let message = empty_assets_message(&app.query, 80);
    assert!(message.contains("No assets match"));
    assert!(message.contains("missing"));
    assert_eq!(empty_assets_message("", 80), "No assets configured");
}

#[test]
fn asset_lines_fit_within_available_width() {
    let mut long = asset("very-long-production-hostname-that-would-overlap-status");
    long.hostname = "very-long-hostname-for-a-private-network.example.internal".to_string();
    long.tags = vec!["production".to_string(), "critical".to_string(), "database".to_string()];
    long.credential_id = Some("managed".to_string());

    let lines = asset_lines(&long, true, 40);
    let line1 = 2 + width(lines.marker) + 1 + width(&lines.name) + lines.gap1 + width(&lines.credential) + 2;
    let line2 = 4 + width(&lines.address) + lines.gap2 + width(&lines.tags) + 2;

    assert!(line1 <= 40, "line1 width was {line1}");
    assert!(line2 <= 40, "line2 width was {line2}");
    assert_eq!(lines.credential, "managed");
    assert!(lines.name.ends_with('…'));
}

#[test]
fn asset_lines_fill_the_width_exactly_for_plain_text() {
    let mut a = asset("db-primary");
    a.hostname = "10.0.0.5".to_string();
    a.tags = vec!["prod".to_string()];
    for w in [6u16, 12, 40, 80] {
        let lines = asset_lines(&a, false, w);
        let line1 = 4 + width(&lines.name) + lines.gap1 + width(&lines.credential) + 2;
        let line2 = 4 + width(&lines.address) + lines.gap2 + width(&lines.tags) + 2;
        assert_eq!(line1, w as usize);
        assert_eq!(line2, w as usize);
    }
    assert!(width(&truncate_to_width("abcdef", 4)) <= 4);
    assert_eq!(truncate_to_width("abcdef", 4), "abc…");
}

#[test]
fn long_search_query_fits_status_line_width() {
    let (_, content) = status_line(true, "very-long-query-that-should-not-overflow-the-status-row", 40);

    assert!(content.contains("very-long-query-that"));
    assert!(content.contains('…'));
    assert_eq!(width(&content), 36);
}

#[test]
fn list_shows_scroll_position_when_not_all_assets_fit() {
    let list_height = 10 - 4;
    assert_eq!(visible_asset_count(list_height), 3);
    assert!(header_counts(8, 6, list_height).contains("7/8"));
    assert_eq!(header_counts(1, 0, 10), "1 asset");
    assert_eq!(header_counts(2, 0, 10), "2 assets");
    assert_eq!(scroll_offset(6, 2), 5);
    assert_eq!(scroll_offset(1, 2), 0);
}

#[test]
fn help_reflects_search_and_filter_state() {
    let keys = help_keys(true, "web");
    let text: String = keys.iter().map(|(k, d)| format!("{k}{d}")).collect();

    assert!(text.contains("Esc"));
    assert!(text.contains("close"));
    assert!(text.contains("Ctrl+C"));
    assert!(text.contains("clear"));
    let idle: String = help_keys(false, "").iter().map(|(k, d)| format!("{k}{d}")).collect();
    assert!(!idle.contains("Esc"));
    assert!(idle.ends_with("q quit"));
}

#[test]
fn truncation_marks_cut_text() {
    assert_eq!(truncate_to_width("hello", 10), "hello");
    assert_eq!(truncate_to_width("hello", 0), "");
    assert_eq!(truncate_to_width("hello", 1), "…");
    assert_eq!(truncate_to_width("hello", 4), "hel…");
    assert_eq!(viewport_size(20, 5), (40, 10));
    assert_eq!(viewport_size(100, 30), (100, 30));
}

#[test]
fn keys_after_quit_are_not_applied() {
    let mut app = TuiApp::new(vec![asset("a"), asset("b")]);
    let inputs = vec![
        TuiInput::Char('/'),
        TuiInput::Char('a'),
        TuiInput::Escape,
        TuiInput::Char('q'),
        TuiInput::Char('/'),
        TuiInput::Char('x'),
    ];
    assert!(matches!(app.handle_inputs(&inputs), TuiAction::Quit));
    assert_eq!(app.query, "a");
    assert!(!app.searching);
}

#[test]
fn a_chunk_without_action_applies_every_key() {
    let mut app = TuiApp::new(vec![asset("a"), asset("b"), asset("c")]);
    let inputs = vec![TuiInput::Down, TuiInput::Down, TuiInput::Up];
    assert!(matches!(app.handle_inputs(&inputs), TuiAction::Idle));
    assert_eq!(app.selected, 1);
    match app.handle_inputs(&vec![TuiInput::Enter, TuiInput::Down]) {
        TuiAction::Connect(a) => assert_eq!(a.name, "b"),
        _ => panic!("expected connect"),
    }
    assert_eq!(app.selected, 1);
}
