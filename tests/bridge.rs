use native_bridge::{
    append_chunk, c_greeting, c_text, decode_body, endpoint, greeting, greeting_calls,
    offline_calls, parse_endpoint, Action, Event, Fault, InteriorNul, Method, Phase, Session,
};

fn deliver_text(a: &Action) -> Option<String> {
    match a {
        Action::Deliver(t) => Some(t.clone()),
        _ => None,
    }
}

fn shape(a: &Action) -> String {
    match a {
        Action::Notify => "notify".to_string(),
        Action::Fetch(u) => format!("fetch {}", u),
        Action::Deliver(t) => format!("deliver {}", t),
        Action::Await => "await".to_string(),
        Action::Finish => "finish".to_string(),
        Action::Report(f) => format!("report {:?}", f),
        Action::Ignore => "ignore".to_string(),
    }
}

fn networked_events(chunks: &[&[u8]]) -> Vec<Event> {
    let mut events = vec![Event::Start, Event::Returned];
    for c in chunks {
        events.push(Event::Chunk(c.to_vec()));
    }
    events.push(Event::BodyEnd);
    events.push(Event::Returned);
    events
}

#[test]
fn greeting_is_fixed_literal() {
    assert_eq!(greeting(), "Hello from Rust");
}

#[test]
fn c_greeting_is_terminated_literal() {
    assert_eq!(c_greeting(), b"Hello from Rust\0".to_vec());
}

#[test]
fn c_text_appends_one_terminator() {
    assert_eq!(c_text("héllo"), Ok("héllo\0".as_bytes().to_vec()));
    assert_eq!(c_text(""), Ok(vec![0u8]));
}

#[test]
fn c_text_refuses_interior_nul() {
    assert_eq!(c_text("ab\0cd\0"), Err(InteriorNul { position: 2 }));
    assert_eq!(c_text("\0"), Err(InteriorNul { position: 0 }));
}

#[test]
fn greeting_calls_invoke_callback_once() {
    let calls = greeting_calls();
    assert_eq!(calls.len(), 1);
    assert_eq!(calls[0].method, Method::Callback);
    assert_eq!(calls[0].argument.as_deref(), Some("Hello from Rust"));
}

#[test]
fn offline_calls_notify_then_append() {
    let calls = offline_calls();
    assert_eq!(calls.len(), 2);
    assert_eq!(calls[0].method, Method::Hello);
    assert_eq!(calls[0].argument, None);
    assert_eq!(calls[1].method, Method::AppendToTextView);
    assert_eq!(calls[1].argument.as_deref(), Some("hello from Rust"));
}

#[test]
fn method_names_and_signatures() {
    assert_eq!(Method::Callback.name(), "callback");
    assert_eq!(Method::Hello.name(), "hello");
    assert_eq!(Method::AppendToTextView.name(), "appendToTextView");
    assert_eq!(Method::Hello.signature(), "()V");
    assert_eq!(Method::Callback.signature(), "(Ljava/lang/String;)V");
    assert_eq!(Method::AppendToTextView.signature(), "(Ljava/lang/String;)V");
    assert!(!Method::Hello.takes_text());
    assert!(Method::Callback.takes_text());
}

#[test]
fn decode_body_accepts_utf8() {
    assert_eq!(decode_body("{\"title\":\"é\"}".as_bytes().to_vec()), Some("{\"title\":\"é\"}".to_string()));
    assert_eq!(decode_body(Vec::new()), Some(String::new()));
}

#[test]
fn decode_body_refuses_invalid_utf8() {
    assert_eq!(decode_body(vec![0x7b, 0xff, 0x7d]), None);
    assert_eq!(decode_body(vec![0xc3]), None);
}

#[test]
fn append_chunk_concatenates() {
    let mut body = b"{\"ti".to_vec();
    append_chunk(&mut body, b"tle\"}");
    assert_eq!(body, b"{\"title\"}".to_vec());
    append_chunk(&mut body, b"");
    assert_eq!(body, b"{\"title\"}".to_vec());
}

#[test]
fn endpoint_parses_to_fixed_address() {
    assert_eq!(endpoint(), "http://echo.jsontest.com/title/ipsum/content/blah");
    let uri = parse_endpoint().expect("the fixed address parses");
    assert_eq!(uri.scheme(), Some("http"));
    assert_eq!(uri.host(), Some("echo.jsontest.com"));
    assert_eq!(uri.path(), "/title/ipsum/content/blah");
}

#[test]
fn session_notifies_fetches_then_delivers() {
    let mut s = Session::new();
    assert_eq!(s.phase(), Phase::Idle);
    assert!(matches!(s.handle(Event::Start), Action::Notify));
    assert_eq!(s.phase(), Phase::NotifyingStart);
    match s.handle(Event::Returned) {
        Action::Fetch(u) => assert_eq!(u.to_string(), "http://echo.jsontest.com/title/ipsum/content/blah"),
        other => panic!("expected a fetch, got {:?}", other),
    }
    assert_eq!(s.phase(), Phase::FetchingBody);
    assert!(matches!(s.handle(Event::Chunk(b"{\"title\":".to_vec())), Action::Await));
    assert!(matches!(s.handle(Event::Chunk(b"\"ipsum\"}".to_vec())), Action::Await));
    let delivered = s.handle(Event::BodyEnd);
    assert_eq!(deliver_text(&delivered).as_deref(), Some("{\"title\":\"ipsum\"}"));
    assert_eq!(s.phase(), Phase::DeliveringResult);
    assert!(matches!(s.handle(Event::Returned), Action::Finish));
    assert_eq!(s.phase(), Phase::Done);
    assert!(matches!(s.handle(Event::Start), Action::Ignore));
}

#[test]
fn mocked_body_is_delivered_verbatim() {
    let (s, actions) = Session::replay(networked_events(&[b"{\"title\":\"ipsum\"}"]));
    assert_eq!(s.phase(), Phase::Done);
    let texts: Vec<String> = actions.iter().filter_map(deliver_text).collect();
    assert_eq!(texts, vec!["{\"title\":\"ipsum\"}".to_string()]);
}

#[test]
fn body_whitespace_is_not_trimmed() {
    let (_, actions) = Session::replay(networked_events(&[b"  {\"title\":\"ipsum\"}\n"]));
    let texts: Vec<String> = actions.iter().filter_map(deliver_text).collect();
    assert_eq!(texts, vec!["  {\"title\":\"ipsum\"}\n".to_string()]);
}

#[test]
fn effects_come_in_order_once_each() {
    let (_, actions) = Session::replay(networked_events(&[b"a", b"b"]));
    let shapes: Vec<String> = actions.iter().map(shape).collect();
    assert_eq!(
        shapes,
        vec![
            "notify".to_string(),
            "fetch http://echo.jsontest.com/title/ipsum/content/blah".to_string(),
            "await".to_string(),
            "await".to_string(),
            "deliver ab".to_string(),
            "finish".to_string(),
        ]
    );
}

#[test]
fn repeated_calls_take_same_actions() {
    let first: Vec<String> = Session::replay(networked_events(&[b"{}"])).1.iter().map(shape).collect();
    let second: Vec<String> = Session::replay(networked_events(&[b"{}"])).1.iter().map(shape).collect();
    assert_eq!(first, second);
    assert_eq!(greeting_calls()[0].argument, greeting_calls()[0].argument);
}

#[test]
fn missing_method_fails_session() {
    let mut s = Session::new();
    assert!(matches!(s.handle(Event::Start), Action::Notify));
    assert!(matches!(s.handle(Event::Failure(Fault::Lookup)), Action::Report(Fault::Lookup)));
    assert_eq!(s.phase(), Phase::Failed);
    assert!(matches!(s.handle(Event::Returned), Action::Ignore));
    assert!(matches!(s.handle(Event::Failure(Fault::Network)), Action::Ignore));
    assert_eq!(s.phase(), Phase::Failed);
}

#[test]
fn network_failure_stops_before_delivery() {
    let events = vec![Event::Start, Event::Returned, Event::Chunk(b"x".to_vec()), Event::Failure(Fault::Network), Event::BodyEnd];
    let (s, actions) = Session::replay(events);
    assert_eq!(s.phase(), Phase::Failed);
    let shapes: Vec<String> = actions.iter().map(shape).collect();
    assert_eq!(shapes[3], "report Network");
    assert_eq!(shapes[4], "ignore");
    assert!(actions.iter().all(|a| deliver_text(a).is_none()));
}

#[test]
fn invalid_body_reports_decode_fault() {
    let (s, actions) = Session::replay(networked_events(&[&[0xff, 0xfe]]));
    assert_eq!(s.phase(), Phase::Failed);
    assert!(matches!(actions[3], Action::Report(Fault::Decode)));
    assert!(matches!(actions[4], Action::Ignore));
}

#[test]
fn encoding_failure_on_delivery_is_reported() {
    let events = vec![Event::Start, Event::Returned, Event::BodyEnd, Event::Failure(Fault::Encoding)];
    let (s, actions) = Session::replay(events);
    assert_eq!(deliver_text(&actions[2]).as_deref(), Some(""));
    assert!(matches!(actions[3], Action::Report(Fault::Encoding)));
    assert_eq!(s.phase(), Phase::Failed);
}

#[test]
fn unexpected_events_are_ignored() {
    let mut s = Session::new();
    assert!(matches!(s.handle(Event::Chunk(vec![1, 2])), Action::Ignore));
    assert!(matches!(s.handle(Event::BodyEnd), Action::Ignore));
    assert!(matches!(s.handle(Event::Returned), Action::Ignore));
    assert_eq!(s.phase(), Phase::Idle);
    assert!(matches!(s.handle(Event::Start), Action::Notify));
    assert!(matches!(s.handle(Event::Start), Action::Ignore));
}
