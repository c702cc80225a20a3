use xrpc_console::dispatch::TransportResult;
use xrpc_console::state::{AppState, MAX_HISTORY};

fn chars(s: &str) -> Vec<char> {
    s.chars().collect()
}

fn text(v: &[char]) -> String {
    v.iter().collect()
}

#[test]
fn profile_query_round_trip() {
    let mut state = AppState::default();
    let url = state
        .begin_dispatch(&chars("app.bsky.actor.getProfile"), &vec![chars("alice.test")], 0)
        .unwrap();
    assert_eq!(
        text(&url),
        "https://bsky.social/xrpc/app.bsky.actor.getProfile?actor=alice.test"
    );
}

#[test]
fn trailing_slashes_are_trimmed_from_the_host() {
    let mut state = AppState::default();
    state.pds_host = chars("https://pds.example//");
    let url = state
        .begin_dispatch(&chars("app.bsky.actor.getProfile"), &vec![chars("bob")], 0)
        .unwrap();
    assert_eq!(text(&url), "https://pds.example/xrpc/app.bsky.actor.getProfile?actor=bob");
}

#[test]
fn auth_endpoint_uses_the_trimmed_host() {
    let mut state = AppState::default();
    state.pds_host = chars("https://pds.example/");
    assert_eq!(
        text(&state.auth_endpoint()),
        "https://pds.example/xrpc/com.atproto.server.createSession"
    );
}

#[test]
fn empty_optional_values_are_omitted_from_the_query() {
    let mut state = AppState::default();
    let url = state
        .begin_dispatch(
            &chars("app.bsky.feed.getTimeline"),
            &vec![chars("50"), chars("")],
            0,
        )
        .unwrap();
    assert_eq!(text(&url), "https://bsky.social/xrpc/app.bsky.feed.getTimeline?limit=50");
}

#[test]
fn several_values_join_with_ampersands() {
    let mut state = AppState::default();
    let url = state
        .begin_dispatch(
            &chars("app.bsky.feed.getAuthorFeed"),
            &vec![chars("bob"), chars("25"), chars("cur1")],
            0,
        )
        .unwrap();
    assert_eq!(
        text(&url),
        "https://bsky.social/xrpc/app.bsky.feed.getAuthorFeed?actor=bob&limit=25&cursor=cur1"
    );
}

#[test]
fn empty_required_value_is_still_sent() {
    let mut state = AppState::default();
    let url = state
        .begin_dispatch(&chars("app.bsky.actor.getProfile"), &vec![chars("")], 0)
        .unwrap();
    assert_eq!(text(&url), "https://bsky.social/xrpc/app.bsky.actor.getProfile?actor=");
}

#[test]
fn method_without_parameters_has_no_query() {
    let mut state = AppState::default();
    let url = state
        .begin_dispatch(&chars("com.atproto.server.describeServer"), &Vec::new(), 0)
        .unwrap();
    assert_eq!(text(&url), "https://bsky.social/xrpc/com.atproto.server.describeServer");
}

#[test]
fn unknown_method_is_a_command_not_found_error() {
    let mut state = AppState::default();
    let r = state.begin_dispatch(&chars("no.such.method"), &Vec::new(), 44);
    assert!(r.is_none());
    assert_eq!(text(state.error.as_ref().unwrap()), "Request error: Command not found");
    assert_eq!(state.error_time, Some(44));
    assert!(state.request_history.is_empty());
}

#[test]
fn dispatch_records_history_before_the_call_resolves() {
    let mut state = AppState::default();
    state
        .begin_dispatch(&chars("app.bsky.actor.getProfile"), &vec![chars("alice.test")], 0)
        .unwrap();
    assert_eq!(state.request_history.len(), 1);
    let entry = &state.request_history[0];
    assert_eq!(text(&entry.method), "app.bsky.actor.getProfile");
    assert!(!entry.success);
    assert_eq!(
        text(&entry.url),
        "https://bsky.social/xrpc/app.bsky.actor.getProfile?actor=alice.test"
    );
    assert_eq!(text(&entry.params[0]), "alice.test");
    assert!(entry.timestamp.month >= 1 && entry.timestamp.month <= 12);
    assert!(entry.timestamp.day >= 1 && entry.timestamp.day <= 31);
    assert!(entry.timestamp.hour < 24 && entry.timestamp.minute < 60 && entry.timestamp.second < 60);
}

#[test]
fn failing_status_marks_the_entry_and_keeps_status_and_body() {
    let mut state = AppState::default();
    let method = chars("app.bsky.actor.getProfile");
    state.begin_dispatch(&method, &vec![chars("alice.test")], 0).unwrap();
    state.finish_dispatch(
        &method,
        TransportResult::Response { status: 400, body: chars("bad request") },
        123,
    );
    assert!(!state.request_history[0].success);
    assert_eq!(text(state.error.as_ref().unwrap()), "Request failed (400): bad request");
    assert_eq!(state.error_time, Some(123));
    assert!(state.output.is_none());
}

#[test]
fn successful_json_response_becomes_pretty_output() {
    let mut state = AppState::default();
    let method = chars("app.bsky.actor.getProfile");
    state.begin_dispatch(&method, &vec![chars("alice.test")], 0).unwrap();
    state.finish_dispatch(
        &method,
        TransportResult::Response { status: 200, body: chars("{\"handle\":\"alice.test\",\"n\":1}") },
        5,
    );
    assert!(state.request_history[0].success);
    assert!(state.error.is_none());
    assert_eq!(
        text(state.output.as_ref().unwrap()),
        "{\n  \"handle\": \"alice.test\",\n  \"n\": 1\n}"
    );
}

#[test]
fn unparsable_body_is_a_response_invalid_error() {
    let mut state = AppState::default();
    let method = chars("app.bsky.actor.getProfile");
    state.begin_dispatch(&method, &vec![chars("alice.test")], 0).unwrap();
    state.finish_dispatch(
        &method,
        TransportResult::Response { status: 200, body: chars("not json at all") },
        9,
    );
    assert!(!state.request_history[0].success);
    let err = text(state.error.as_ref().unwrap());
    assert!(err.starts_with("Failed to parse response: "));
    assert_eq!(state.error_time, Some(9));
    assert!(state.output.is_none());
}

#[test]
fn transport_failure_is_recorded() {
    let mut state = AppState::default();
    let method = chars("app.bsky.actor.getProfile");
    state.begin_dispatch(&method, &vec![chars("alice.test")], 0).unwrap();
    state.finish_dispatch(&method, TransportResult::Failure { message: chars("connection refused") }, 3);
    assert!(!state.request_history[0].success);
    assert_eq!(text(state.error.as_ref().unwrap()), "Request failed: connection refused");
}

#[test]
fn outcome_marks_the_most_recent_entry_for_the_method() {
    let mut state = AppState::default();
    let profile = chars("app.bsky.actor.getProfile");
    let timeline = chars("app.bsky.feed.getTimeline");
    state.begin_dispatch(&profile, &vec![chars("a")], 0).unwrap();
    state.begin_dispatch(&timeline, &vec![chars("50"), chars("")], 0).unwrap();
    state.finish_dispatch(
        &profile,
        TransportResult::Response { status: 200, body: chars("{}") },
        0,
    );
    assert!(!state.request_history[0].success);
    assert!(state.request_history[1].success);
}

#[test]
fn success_clears_a_previous_error() {
    let mut state = AppState::default();
    let method = chars("app.bsky.actor.getProfile");
    state.set_transient_message(chars("older trouble"), 0);
    state.begin_dispatch(&method, &vec![chars("a")], 0).unwrap();
    state.finish_dispatch(
        &method,
        TransportResult::Response { status: 200, body: chars("[1,2]") },
        0,
    );
    assert!(state.error.is_none());
    assert_eq!(text(state.output.as_ref().unwrap()), "[\n  1,\n  2\n]");
}

#[test]
fn history_is_capped_and_evicts_the_oldest() {
    let mut state = AppState::default();
    let method = chars("app.bsky.actor.getProfile");
    for i in 0..(MAX_HISTORY + 1) {
        let url: Vec<char> = format!("url-{}", i).chars().collect();
        state.add_to_history(&method, url, Vec::new());
        assert!(state.request_history.len() <= MAX_HISTORY);
    }
    assert_eq!(state.request_history.len(), MAX_HISTORY);
    assert_eq!(text(&state.request_history[0].url), format!("url-{}", MAX_HISTORY));
    assert_eq!(
        text(&state.request_history[MAX_HISTORY - 1].url),
        "url-1"
    );
    for entry in &state.request_history {
        assert_ne!(text(&entry.url), "url-0");
    }
}

#[test]
fn outcome_without_matching_entry_leaves_the_log_alone() {
    let mut state = AppState::default();
    let profile = chars("app.bsky.actor.getProfile");
    let timeline = chars("app.bsky.feed.getTimeline");
    state.begin_dispatch(&profile, &vec![chars("x")], 0).unwrap();
    state.finish_dispatch(&timeline, TransportResult::Failure { message: chars("nope") }, 1);
    assert_eq!(state.request_history.len(), 1);
    assert!(!state.request_history[0].success);
    assert_eq!(text(state.error.as_ref().unwrap()), "Request failed: nope");
}
