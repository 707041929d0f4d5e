use spark_ai_sdk_rs::{
    classify_handshake_failure, parse_frame, Frame, Reducer, Role, SparkAI, SparkError, Turn,
};

fn client() -> SparkAI {
    SparkAI::new("app", "k3y", "s3cr3t", "wss://example/v1/chat")
}

fn frame(code: i64, status: i64, content: Option<&str>) -> Frame {
    Frame { code, status, content: content.map(|s| s.to_owned()) }
}

#[test]
fn get_prompt_appends_exactly_one_user_turn() {
    let ai = client();
    let mut history: Vec<Turn> = vec![Turn::assistant("earlier")];
    ai.get_prompt("what is a monad?", &mut history);
    assert_eq!(history.len(), 2);
    assert_eq!(history[1].role, Role::User);
    assert_eq!(history[1].content, "what is a monad?");
    assert_eq!(history[0].content, "earlier");
}

#[test]
fn merge_accumulates_and_each_text_is_a_prefix_of_the_next() {
    let mut history: Vec<Turn> = vec![Turn::user("q")];
    let mut reducer = Reducer::new();
    let r1 = reducer.apply(&mut history, &frame(0, 0, Some("x"))).unwrap();
    let r2 = reducer.apply(&mut history, &frame(0, 1, Some("a"))).unwrap();
    let r3 = reducer.apply(&mut history, &frame(0, 1, Some("b"))).unwrap();
    assert_eq!(r1, "x");
    assert_eq!(r2, "xa");
    assert_eq!(r3, "xab");
    assert!(r2.starts_with(&r1));
    assert!(r3.starts_with(&r2));
    assert_eq!(history.len(), 2);
    assert_eq!(history[1].role, Role::Assistant);
    assert_eq!(history[1].content, "xab");
}

#[test]
fn a_continuing_frame_without_a_first_frame_opens_a_turn() {
    let mut history: Vec<Turn> = vec![Turn::user("q")];
    let mut reducer = Reducer::new();
    let r = reducer.apply(&mut history, &frame(0, 1, Some("lo"))).unwrap();
    assert_eq!(r, "lo");
    assert_eq!(history.len(), 2);
    assert_eq!(history[1].role, Role::Assistant);
    assert_eq!(history[1].content, "lo");
}

#[test]
fn a_non_zero_code_never_mutates_the_transcript() {
    let mut history: Vec<Turn> = vec![Turn::user("q"), Turn::assistant("half an answ")];
    let mut reducer = Reducer::new();
    let r = reducer.apply(&mut history, &frame(3, 0, Some("garbage")));
    assert_eq!(r, Err(SparkError::RemoteApplicationError(3)));
    assert_eq!(history.len(), 2);
    assert_eq!(history[0].content, "q");
    assert_eq!(history[1].content, "half an answ");
}

#[test]
fn an_empty_fragment_changes_nothing_and_reports_the_text_so_far() {
    let mut history: Vec<Turn> = vec![Turn::user("q")];
    let mut reducer = Reducer::new();
    reducer.apply(&mut history, &frame(0, 0, Some("so far"))).unwrap();
    let r = reducer.apply(&mut history, &frame(0, 1, Some(""))).unwrap();
    assert_eq!(r, "so far");
    let r = reducer.apply(&mut history, &frame(0, 1, None)).unwrap();
    assert_eq!(r, "so far");
    assert_eq!(history.len(), 2);
    assert_eq!(history[1].content, "so far");
}

#[test]
fn a_status_other_than_one_opens_a_new_turn() {
    let mut history: Vec<Turn> = vec![Turn::user("q")];
    let mut reducer = Reducer::new();
    reducer.apply(&mut history, &frame(0, 0, Some("first"))).unwrap();
    let r = reducer.apply(&mut history, &frame(0, 2, Some("second"))).unwrap();
    assert_eq!(r, "second");
    assert_eq!(history.len(), 3);
    assert_eq!(history[1].content, "first");
    assert_eq!(history[2].content, "second");
}

#[test]
fn streamed_reply_scenario() {
    let ai = client();
    let mut history: Vec<Turn> = Vec::new();
    let mut reducer = Reducer::new();
    ai.get_prompt("hi", &mut history);
    let first = r#"{"header":{"code":0,"status":0},"payload":{"choices":{"text":[{"content":"Hel","index":0}]}}}"#;
    let second = r#"{"header":{"code":0,"status":1},"payload":{"choices":{"text":[{"content":"lo","index":0}]}}}"#;
    let (t1, s1) = ai.process_response(first, &mut history, &mut reducer).unwrap();
    let (t2, s2) = ai.process_response(second, &mut history, &mut reducer).unwrap();
    assert_eq!((t1.as_str(), s1), ("Hel", 0));
    assert_eq!((t2.as_str(), s2), ("Hello", 1));
    assert_eq!(history.len(), 2);
    assert_eq!(history[0].role, Role::User);
    assert_eq!(history[0].content, "hi");
    assert_eq!(history[1].role, Role::Assistant);
    assert_eq!(history[1].content, "Hello");
}

#[test]
fn a_remote_error_frame_is_reported_and_leaves_the_transcript() {
    let ai = client();
    let mut history: Vec<Turn> = Vec::new();
    let mut reducer = Reducer::new();
    ai.get_prompt("hi", &mut history);
    let r = ai.process_response(r#"{"header":{"code":4001,"status":2}}"#, &mut history, &mut reducer);
    assert_eq!(r, Err(SparkError::RemoteApplicationError(4001)));
    assert_eq!(history.len(), 1);
    assert_eq!(history[0].content, "hi");
}

#[test]
fn malformed_documents_are_protocol_frame_errors() {
    let ai = client();
    let mut history: Vec<Turn> = Vec::new();
    let mut reducer = Reducer::new();
    for bad in [
        "not json at all",
        r#"{"payload":{}}"#,
        r#"{"header":{"status":0}}"#,
        r#"{"header":{"code":"zero"}}"#,
        r#"{"header":{"code":0,"status":"one"}}"#,
    ] {
        let r = ai.process_response(bad, &mut history, &mut reducer);
        assert_eq!(r, Err(SparkError::ProtocolFrameError));
    }
    assert_eq!(history.len(), 0);
}

#[test]
fn a_missing_status_defaults_to_two() {
    let f = parse_frame(r#"{"header":{"code":0},"payload":{"choices":{"text":[{"content":"x"}]}}}"#)
        .unwrap();
    assert_eq!(f.status, 2);
    assert_eq!(f.code, 0);
    assert_eq!(f.content.as_deref(), Some("x"));
}

#[test]
fn a_missing_fragment_parses_as_no_content() {
    let f = parse_frame(r#"{"header":{"code":0,"status":1}}"#).unwrap();
    assert_eq!(f.content, None);
    let f = parse_frame(r#"{"header":{"code":0,"status":1},"payload":{"choices":{"text":[]}}}"#)
        .unwrap();
    assert_eq!(f.content, None);
}

#[test]
fn build_inputs_clamps_max_tokens_to_the_ceiling() {
    let ai = client();
    let history: Vec<Turn> = vec![Turn::user("hi")];
    let json = ai.build_inputs(&history, "user1", "general", "0.5", 10000);
    assert!(json.contains("\"max_tokens\":4096,"));
    assert!(!json.contains("10000"));
}

#[test]
fn build_inputs_writes_the_exact_document() {
    let ai = client();
    let history: Vec<Turn> = vec![Turn::user("hi"), Turn::assistant("Hello")];
    let json = ai.build_inputs(&history, "user1", "general", "0.5", 2048);
    assert_eq!(
        json,
        r#"{"header":{"app_id":"app","uid":"user1"},"parameter":{"chat":{"domain":"general","max_tokens":2048,"temperature":0.5}},"payload":{"message":{"text":[{"content":"hi","role":"user"},{"content":"Hello","role":"assistant"}]}}}"#
    );
}

#[test]
fn build_inputs_escapes_the_content() {
    let ai = client();
    let history: Vec<Turn> = vec![Turn::user("a \"b\"\nc\\d\u{1}")];
    let json = ai.build_inputs(&history, "user1", "general", "0.5", 16);
    assert!(json.contains(r#"{"content":"a \"b\"\nc\\d\u0001","role":"user"}"#));
}

#[test]
fn built_documents_parse_back_as_json() {
    let ai = client();
    let history: Vec<Turn> = vec![Turn::user("quote \" tab \t end")];
    let json = ai.build_inputs(&history, "user1", "general", "0.5", 16);
    let doc: serde_json::Value = serde_json::from_str(&json).expect("valid json");
    assert_eq!(
        doc["payload"]["message"]["text"][0]["content"],
        serde_json::Value::String("quote \" tab \t end".to_owned())
    );
    assert_eq!(doc["parameter"]["chat"]["max_tokens"], serde_json::Value::from(16));
}

#[test]
fn handshake_rejections_are_classified() {
    assert_eq!(classify_handshake_failure(Some(401)), SparkError::AuthenticationError);
    assert_eq!(classify_handshake_failure(Some(500)), SparkError::ConnectionError);
    assert_eq!(classify_handshake_failure(None), SparkError::ConnectionError);
}

#[test]
fn every_error_has_a_message() {
    for e in [
        SparkError::InvalidEndpoint,
        SparkError::AuthenticationError,
        SparkError::ConnectionError,
        SparkError::ProtocolFrameError,
        SparkError::RemoteApplicationError(4001),
    ] {
        assert!(!e.message().is_empty());
    }
}
