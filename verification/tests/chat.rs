use open_coder::client::{build_chat_request, build_stream_chat_request, response_outcome};
use open_coder::errors::LmError;
use open_coder::history::{HistoryStore, Role};
use open_coder::output::OutputHandler;
use open_coder::session::Session;

#[test]
fn transcript_starts_with_one_system_message() {
    let store = HistoryStore::new("You are a helpful assistant.");
    let transcript = store.history();
    assert_eq!(transcript.len(), 1);
    assert!(matches!(transcript[0].role, Role::System));
    assert_eq!(transcript[0].content, "You are a helpful assistant.");
}

#[test]
fn transcript_keeps_first_message_and_grows_under_operations() {
    let mut store = HistoryStore::new("sys");
    let mut expected_len = 1;
    let turns = [
        (Role::User, "one"),
        (Role::Assistant, "two"),
        (Role::User, "three"),
        (Role::Assistant, "four"),
    ];
    for (role, content) in turns {
        store.add_history(role, content);
        expected_len += 1;
        let transcript = store.history();
        assert_eq!(transcript.len(), expected_len);
        assert!(matches!(transcript[0].role, Role::System));
    }
    let transcript = store.history();
    assert_eq!(transcript[2].content, "two");
    assert!(matches!(transcript[3].role, Role::User));
}

#[test]
fn failed_stream_keeps_the_user_turn_and_commits_no_answer() {
    let mut session = Session::new("sys");
    let mut turn = session.begin_chat_turn("hello");
    turn.on_error();
    session.finish_chat_turn(turn);

    let transcript = session.history.history();
    assert_eq!(transcript.len(), 2);
    assert!(matches!(transcript[0].role, Role::System));
    assert!(matches!(transcript[1].role, Role::User));
    assert_eq!(transcript[1].content, "hello");
}

#[test]
fn streamed_deltas_commit_as_one_assistant_message() {
    let output = OutputHandler::new();
    let mut session = Session::new("sys");
    let mut turn = session.begin_chat_turn("greet me");
    turn.on_open();

    let events = [
        r#"{"choices":[{"delta":{"content":"He"}}]}"#,
        r#"{"choices":[{"delta":{"content":"llo"}}]}"#,
        r#"{"choices":[{"finish_reason":"stop"}]}"#,
    ];
    for payload in events {
        let (is_final, delta) = output
            .format_model_stream_response(payload.to_string())
            .unwrap();
        turn.on_event(is_final, &delta);
    }
    session.finish_chat_turn(turn);

    let transcript = session.history.history();
    assert_eq!(transcript.len(), 3);
    assert!(matches!(transcript[2].role, Role::Assistant));
    assert_eq!(transcript[2].content, "Hello");
}

#[test]
fn empty_stream_commits_nothing() {
    let mut session = Session::new("sys");
    let mut turn = session.begin_chat_turn("hi");
    turn.on_open();
    turn.on_event(true, "");
    session.finish_chat_turn(turn);

    let transcript = session.history.history();
    assert_eq!(transcript.len(), 2);
    assert!(matches!(transcript[1].role, Role::User));
}

#[test]
fn decode_failure_mid_stream_discards_partial_text() {
    let output = OutputHandler::new();
    let mut session = Session::new("sys");
    let mut turn = session.begin_chat_turn("hi");
    turn.on_open();

    let (is_final, delta) = output
        .format_model_stream_response(r#"{"choices":[{"delta":{"content":"par"}}]}"#.to_string())
        .unwrap();
    turn.on_event(is_final, &delta);

    let failure = output.format_model_stream_response("not json".to_string());
    assert!(matches!(failure, Err(LmError::DecodeError)));
    turn.on_error();
    session.finish_chat_turn(turn);

    let transcript = session.history.history();
    assert_eq!(transcript.len(), 2);
    assert!(matches!(transcript[1].role, Role::User));
}

#[test]
fn chat_request_replays_the_whole_history() {
    let mut session = Session::new("sys");
    session.history.add_history(Role::User, "q1");
    session.history.add_history(Role::Assistant, "a1");
    session.history.add_history(Role::User, "q2");

    let request = build_stream_chat_request(&session.model, session.history.history());
    assert!(request.stream);
    assert_eq!(request.model, "qwen3-30b-a3b-instruct-2507");
    assert_eq!(request.top_p, "0.95");
    assert_eq!(request.top_k, 40);
    assert_eq!(request.temperature, "0.7");
    assert_eq!(request.messages.len(), 4);
    assert!(matches!(request.messages[0].role, Role::System));
    assert_eq!(request.messages[3].content, "q2");
}

#[test]
fn single_prompt_request_holds_one_user_message() {
    let session = Session::new("sys");
    let request = build_chat_request(&session.model, "just this");
    assert!(!request.stream);
    assert_eq!(request.messages.len(), 1);
    assert!(matches!(request.messages[0].role, Role::User));
    assert_eq!(request.messages[0].content, "just this");
    assert_eq!(request.repeat_penalty, "1");
}

#[test]
fn response_outcome_classifies_each_failure() {
    assert!(response_outcome(Some(200)).is_ok());
    assert!(response_outcome(Some(299)).is_ok());
    assert!(matches!(
        response_outcome(Some(404)),
        Err(LmError::UpstreamError { status: 404 })
    ));
    assert!(matches!(
        response_outcome(Some(500)),
        Err(LmError::UpstreamError { status: 500 })
    ));
    assert!(matches!(response_outcome(None), Err(LmError::TransportError)));

    let err = response_outcome(Some(404)).err().unwrap();
    assert_eq!(err.message(), "Upstream error with status: 404");
}
