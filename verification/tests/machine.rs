use xrpc_console::dispatch::AuthOutcome;
use xrpc_console::input::Action;
use xrpc_console::keys::{KeyCode, KeyEvent};
use xrpc_console::state::{AppState, InputMode, InputState};

fn chars(s: &str) -> Vec<char> {
    s.chars().collect()
}

fn text(v: &[char]) -> String {
    v.iter().collect()
}

fn key(code: KeyCode) -> KeyEvent {
    KeyEvent { code, ctrl: false }
}

fn ctrl_c() -> KeyEvent {
    KeyEvent { code: KeyCode::Char('c'), ctrl: true }
}

fn type_text(state: &mut AppState, s: &str) {
    for c in s.chars() {
        state.handle_input(key(KeyCode::Char(c)), 20);
    }
}

#[test]
fn quit_key_sets_flag_in_normal_mode() {
    let mut state = AppState::default();
    type_text(&mut state, "half-typed");
    state.handle_input(ctrl_c(), 20);
    assert!(state.quit);
}

#[test]
fn quit_key_sets_flag_in_every_mode() {
    let modes = vec![
        InputMode::Normal,
        InputMode::Password,
        InputMode::Command,
        InputMode::History,
        InputMode::CommandBuilder {
            command: chars("app.bsky.actor.getProfile"),
            current_param: 0,
            params: Vec::new(),
        },
        InputMode::ViewingResponse,
    ];
    for mode in modes {
        let mut state = AppState::default();
        state.input.mode = mode;
        state.input.content = chars("leftover");
        state.input.cursor_position = 3;
        state.handle_input(ctrl_c(), 20);
        assert!(state.quit);
    }
}

#[test]
fn authentication_flow_reaches_command_mode() {
    let mut state = AppState::default();
    type_text(&mut state, "alice");
    state.handle_input(key(KeyCode::Enter), 20);
    assert!(matches!(state.input.mode, InputMode::Password));
    assert_eq!(text(state.identifier.as_ref().unwrap()), "alice");
    assert!(state.input.content.is_empty());

    type_text(&mut state, "secret");
    let action = state.handle_input(key(KeyCode::Enter), 20);
    match action {
        Action::Authenticate { identifier, password } => {
            assert_eq!(text(&identifier), "alice");
            assert_eq!(text(&password), "secret");
        }
        _ => panic!("expected an authentication action"),
    }
    assert!(state.identifier.is_none());

    state.finish_auth(
        AuthOutcome::Granted { access: chars("A"), refresh: chars("R") },
        1000,
    );
    assert!(state.is_authenticated);
    assert!(matches!(state.input.mode, InputMode::Command));
    assert_eq!(text(state.auth_token.as_ref().unwrap()), "A");
    assert_eq!(text(state.refresh_token.as_ref().unwrap()), "R");
}

#[test]
fn empty_identifier_is_ignored() {
    let mut state = AppState::default();
    state.handle_input(key(KeyCode::Enter), 20);
    assert!(matches!(state.input.mode, InputMode::Normal));
    assert!(state.identifier.is_none());
}

#[test]
fn denied_authentication_returns_to_identifier_entry() {
    let mut state = AppState::default();
    state.input.mode = InputMode::Password;
    state.finish_auth(AuthOutcome::Denied { message: chars("bad credentials") }, 7000);
    assert!(matches!(state.input.mode, InputMode::Normal));
    assert!(!state.is_authenticated);
    assert_eq!(text(state.error.as_ref().unwrap()), "Authentication failed: bad credentials");
    assert_eq!(state.error_time, Some(7000));
}

#[test]
fn editor_insert_move_delete() {
    let mut editor = InputState {
        content: Vec::new(),
        cursor_position: 0,
        mode: InputMode::Normal,
        completion_index: None,
        completion_matches: Vec::new(),
    };
    assert!(editor.handle_key(KeyCode::Char('a')));
    assert!(editor.handle_key(KeyCode::Char('c')));
    assert!(editor.handle_key(KeyCode::Left));
    assert!(editor.handle_key(KeyCode::Char('b')));
    assert_eq!(text(&editor.content), "abc");
    assert_eq!(editor.cursor_position, 2);
    assert!(editor.handle_key(KeyCode::Backspace));
    assert_eq!(text(&editor.content), "ac");
    assert_eq!(editor.cursor_position, 1);
    assert!(editor.handle_key(KeyCode::Right));
    assert_eq!(editor.cursor_position, 2);
    assert!(!editor.handle_key(KeyCode::Esc));
}

#[test]
fn masked_buffer_has_one_glyph_per_character() {
    let mut editor = InputState {
        content: chars("secret"),
        cursor_position: 0,
        mode: InputMode::Password,
        completion_index: None,
        completion_matches: Vec::new(),
    };
    assert_eq!(text(&editor.masked()), "******");
    editor.content = Vec::new();
    assert_eq!(text(&editor.masked()), "");
}

#[test]
fn completions_match_prefix_in_catalog_order() {
    let mut editor = InputState {
        content: chars("app.bsky.feed"),
        cursor_position: 13,
        mode: InputMode::Command,
        completion_index: None,
        completion_matches: Vec::new(),
    };
    editor.update_completions();
    let matches: Vec<String> = editor.completion_matches.iter().map(|m| text(m)).collect();
    assert_eq!(
        matches,
        vec![
            "app.bsky.feed.getTimeline".to_string(),
            "app.bsky.feed.getPostThread".to_string(),
            "app.bsky.feed.getAuthorFeed".to_string(),
        ]
    );
    assert_eq!(editor.completion_index, Some(0));
}

#[test]
fn empty_buffer_yields_no_matches_and_no_cycle() {
    let mut editor = InputState {
        content: Vec::new(),
        cursor_position: 0,
        mode: InputMode::Command,
        completion_index: Some(2),
        completion_matches: vec![chars("stale")],
    };
    editor.update_completions();
    assert!(editor.completion_matches.is_empty());
    assert!(editor.completion_index.is_none());
}

#[test]
fn cycling_three_matches_three_times_returns_to_start() {
    let mut state = AppState::default();
    state.input.mode = InputMode::Command;
    type_text(&mut state, "app.bsky.feed");
    assert_eq!(state.input.completion_matches.len(), 3);
    assert_eq!(state.input.completion_index, Some(0));
    state.handle_input(key(KeyCode::Tab), 20);
    assert_eq!(state.input.completion_index, Some(1));
    assert_eq!(text(&state.input.content), "app.bsky.feed.getTimeline");
    state.handle_input(key(KeyCode::Tab), 20);
    assert_eq!(state.input.completion_index, Some(2));
    state.handle_input(key(KeyCode::Tab), 20);
    assert_eq!(state.input.completion_index, Some(0));
}

#[test]
fn command_enter_with_typed_method_opens_wizard() {
    let mut state = AppState::default();
    state.input.mode = InputMode::Command;
    type_text(&mut state, "app.bsky.actor.getProfile");
    let action = state.handle_input(key(KeyCode::Enter), 20);
    assert!(matches!(action, Action::Idle));
    match &state.input.mode {
        InputMode::CommandBuilder { command, current_param, params } => {
            assert_eq!(text(command), "app.bsky.actor.getProfile");
            assert_eq!(*current_param, 0);
            assert!(params.is_empty());
        }
        _ => panic!("expected the wizard"),
    }
    assert!(state.input.content.is_empty());
    assert!(state.output.is_none());
}

#[test]
fn command_enter_with_highlighted_entry_opens_wizard() {
    let mut state = AppState::default();
    state.input.mode = InputMode::Command;
    assert_eq!(state.selected_command_index, Some(0));
    state.handle_input(key(KeyCode::Down), 20);
    assert_eq!(state.selected_command_index, Some(1));
    let action = state.handle_input(key(KeyCode::Enter), 20);
    assert!(matches!(action, Action::Idle));
    match &state.input.mode {
        InputMode::CommandBuilder { command, .. } => {
            assert_eq!(text(command), "app.bsky.feed.getTimeline");
        }
        _ => panic!("expected the wizard"),
    }
}

#[test]
fn command_selection_clamps_at_both_ends() {
    let mut state = AppState::default();
    state.input.mode = InputMode::Command;
    state.handle_input(key(KeyCode::Up), 20);
    assert_eq!(state.selected_command_index, Some(0));
    for _ in 0..30 {
        state.handle_input(key(KeyCode::Down), 20);
    }
    assert_eq!(state.selected_command_index, Some(10));
    state.handle_input(key(KeyCode::Down), 20);
    assert_eq!(state.selected_command_index, Some(10));
}

#[test]
fn unknown_typed_method_changes_nothing() {
    let mut state = AppState::default();
    state.input.mode = InputMode::Command;
    type_text(&mut state, "zzz.example");
    let action = state.handle_input(key(KeyCode::Enter), 20);
    assert!(matches!(action, Action::Idle));
    assert!(matches!(state.input.mode, InputMode::Command));
    assert_eq!(text(&state.input.content), "zzz.example");
}

#[test]
fn method_without_parameters_dispatches_at_once() {
    let mut state = AppState::default();
    state.input.mode = InputMode::Command;
    type_text(&mut state, "com.atproto.server.describeServer");
    let action = state.handle_input(key(KeyCode::Enter), 20);
    match action {
        Action::Dispatch { method, params } => {
            assert_eq!(text(&method), "com.atproto.server.describeServer");
            assert!(params.is_empty());
        }
        _ => panic!("expected a dispatch"),
    }
    assert!(matches!(state.input.mode, InputMode::ViewingResponse));
}

#[test]
fn required_parameter_rejects_empty_submission() {
    let mut state = AppState::default();
    state.input.mode = InputMode::CommandBuilder {
        command: chars("app.bsky.actor.getProfile"),
        current_param: 0,
        params: Vec::new(),
    };
    let action = state.handle_input(key(KeyCode::Enter), 20);
    assert!(matches!(action, Action::Idle));
    match &state.input.mode {
        InputMode::CommandBuilder { current_param, params, .. } => {
            assert_eq!(*current_param, 0);
            assert!(params.is_empty());
        }
        _ => panic!("the wizard must not move"),
    }
}

#[test]
fn optional_parameter_substitutes_declared_default() {
    let mut state = AppState::default();
    state.input.mode = InputMode::CommandBuilder {
        command: chars("app.bsky.feed.getTimeline"),
        current_param: 0,
        params: Vec::new(),
    };
    let action = state.handle_input(key(KeyCode::Enter), 20);
    assert!(matches!(action, Action::Idle));
    match &state.input.mode {
        InputMode::CommandBuilder { current_param, params, .. } => {
            assert_eq!(*current_param, 1);
            assert_eq!(text(&params[0]), "50");
        }
        _ => panic!("the wizard must advance"),
    }
}

#[test]
fn last_parameter_submission_dispatches() {
    let mut state = AppState::default();
    state.input.mode = InputMode::CommandBuilder {
        command: chars("app.bsky.feed.getTimeline"),
        current_param: 1,
        params: vec![chars("50")],
    };
    let action = state.handle_input(key(KeyCode::Enter), 20);
    match action {
        Action::Dispatch { method, params } => {
            assert_eq!(text(&method), "app.bsky.feed.getTimeline");
            assert_eq!(params.len(), 2);
            assert_eq!(text(&params[0]), "50");
            assert_eq!(text(&params[1]), "");
        }
        _ => panic!("expected a dispatch"),
    }
    assert!(matches!(state.input.mode, InputMode::ViewingResponse));
}

#[test]
fn typed_value_is_taken_verbatim() {
    let mut state = AppState::default();
    state.input.mode = InputMode::CommandBuilder {
        command: chars("app.bsky.actor.getProfile"),
        current_param: 0,
        params: Vec::new(),
    };
    type_text(&mut state, "alice.test");
    let action = state.handle_input(key(KeyCode::Enter), 20);
    match action {
        Action::Dispatch { method, params } => {
            assert_eq!(text(&method), "app.bsky.actor.getProfile");
            assert_eq!(params.len(), 1);
            assert_eq!(text(&params[0]), "alice.test");
        }
        _ => panic!("expected a dispatch"),
    }
}

#[test]
fn escape_abandons_the_wizard() {
    let mut state = AppState::default();
    state.input.mode = InputMode::CommandBuilder {
        command: chars("app.bsky.actor.getProfile"),
        current_param: 0,
        params: Vec::new(),
    };
    type_text(&mut state, "half");
    state.handle_input(key(KeyCode::Esc), 20);
    assert!(matches!(state.input.mode, InputMode::Command));
    assert!(state.input.content.is_empty());
}

#[test]
fn history_key_opens_browser_with_first_entry_selected() {
    let mut state = AppState::default();
    state.input.mode = InputMode::Command;
    state.add_to_history(&chars("app.bsky.actor.getProfile"), chars("u1"), vec![chars("a")]);
    state.handle_input(key(KeyCode::Char('h')), 20);
    assert!(matches!(state.input.mode, InputMode::History));
    assert_eq!(state.selected_command_index, Some(0));
}

#[test]
fn history_key_with_empty_log_selects_nothing() {
    let mut state = AppState::default();
    state.input.mode = InputMode::Command;
    state.handle_input(key(KeyCode::Char('H')), 20);
    assert!(matches!(state.input.mode, InputMode::History));
    assert_eq!(state.selected_command_index, None);
}

#[test]
fn history_enter_replays_the_selected_entry() {
    let mut state = AppState::default();
    state.add_to_history(&chars("app.bsky.actor.getProfile"), chars("u1"), vec![chars("alice.test")]);
    state.input.mode = InputMode::History;
    state.selected_command_index = Some(0);
    let action = state.handle_input(key(KeyCode::Enter), 20);
    match action {
        Action::Dispatch { method, params } => {
            assert_eq!(text(&method), "app.bsky.actor.getProfile");
            assert_eq!(text(&params[0]), "alice.test");
        }
        _ => panic!("expected a replay dispatch"),
    }
    assert!(matches!(state.input.mode, InputMode::ViewingResponse));
}

#[test]
fn history_escape_returns_to_command_mode() {
    let mut state = AppState::default();
    state.input.mode = InputMode::History;
    state.selected_command_index = Some(3);
    state.handle_input(key(KeyCode::Esc), 20);
    assert!(matches!(state.input.mode, InputMode::Command));
    assert_eq!(state.selected_command_index, Some(0));
}

#[test]
fn history_selection_is_clamped() {
    let mut state = AppState::default();
    state.add_to_history(&chars("app.bsky.actor.getProfile"), chars("u1"), Vec::new());
    state.add_to_history(&chars("app.bsky.feed.getTimeline"), chars("u2"), Vec::new());
    state.input.mode = InputMode::History;
    state.selected_command_index = Some(0);
    state.handle_input(key(KeyCode::Up), 20);
    assert_eq!(state.selected_command_index, Some(0));
    state.handle_input(key(KeyCode::Down), 20);
    assert_eq!(state.selected_command_index, Some(1));
    state.handle_input(key(KeyCode::Down), 20);
    assert_eq!(state.selected_command_index, Some(1));
}

#[test]
fn transient_message_expires_after_five_seconds() {
    let mut state = AppState::default();
    state.set_transient_message(chars("Exported to somewhere"), 1000);
    state.update(5999);
    assert!(state.error.is_some());
    state.update(6000);
    assert!(state.error.is_none());
    assert!(state.error_time.is_none());
}

#[test]
fn viewing_enter_returns_to_command_and_resets_scroll() {
    let mut state = AppState::default();
    state.input.mode = InputMode::ViewingResponse;
    state.scroll_offset = 7;
    state.input.content = chars("junk");
    state.handle_input(key(KeyCode::Enter), 20);
    assert!(matches!(state.input.mode, InputMode::Command));
    assert_eq!(state.scroll_offset, 0);
    assert!(state.input.content.is_empty());
}

#[test]
fn copy_key_hands_out_the_output_text() {
    let mut state = AppState::default();
    state.input.mode = InputMode::ViewingResponse;
    state.output = Some(chars("{\n  \"a\": 1\n}"));
    let action = state.handle_input(key(KeyCode::Char('c')), 20);
    match action {
        Action::CopyOutput { text: t } => assert_eq!(text(&t), "{\n  \"a\": 1\n}"),
        _ => panic!("expected a copy action"),
    }
}

#[test]
fn export_key_derives_a_timestamped_filename() {
    let mut state = AppState::default();
    state.input.mode = InputMode::ViewingResponse;
    state.output = Some(chars("{}"));
    let action = state.handle_input(key(KeyCode::Char('e')), 20);
    match action {
        Action::ExportOutput { filename, text: t } => {
            let name = text(&filename);
            assert!(name.starts_with("bsky_response_"));
            assert!(name.ends_with(".json"));
            assert_eq!(name.len(), "bsky_response_".len() + 19 + ".json".len());
            assert_eq!(text(&t), "{}");
        }
        _ => panic!("expected an export action"),
    }
}

#[test]
fn copy_key_without_output_does_nothing() {
    let mut state = AppState::default();
    state.input.mode = InputMode::ViewingResponse;
    let action = state.handle_input(key(KeyCode::Char('c')), 20);
    assert!(matches!(action, Action::Idle));
}
