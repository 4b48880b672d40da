use github_events::decoder::{
    assemble, decode, event_from, inspect, read_envelope, ActorMember, Envelope, EventProcessor,
    Member,
};
use github_events::error::AppError;
use github_events::record::{Actor, GithubEvent, RawFrame};

fn frame(payload: &str) -> RawFrame {
    RawFrame { event_type: "message".to_string(), payload: payload.to_string() }
}

fn event(id: &str, event_type: &str, login: &str) -> GithubEvent {
    GithubEvent {
        id: id.to_string(),
        event_type: event_type.to_string(),
        actor: Actor { display_login: login.to_string() },
    }
}

fn json_error(payload: &str, reason: &str) -> AppError {
    AppError::JsonError { payload: payload.to_string(), reason: reason.to_string() }
}

fn encode(event: &GithubEvent) -> String {
    let mut actor = serde_json::Map::new();
    actor.insert(
        "display_login".to_string(),
        serde_json::Value::String(event.actor.display_login.clone()),
    );
    let mut document = serde_json::Map::new();
    document.insert("id".to_string(), serde_json::Value::String(event.id.clone()));
    document.insert("type".to_string(), serde_json::Value::String(event.event_type.clone()));
    document.insert("actor".to_string(), serde_json::Value::Object(actor));
    serde_json::to_string(&serde_json::Value::Object(document)).unwrap()
}

#[test]
fn push_event_decodes_to_its_three_fields() {
    let payload = r#"{"id":"1","type":"PushEvent","actor":{"display_login":"alice"}}"#;
    let decoded = decode(frame(payload));
    assert_eq!(decoded, Ok(event("1", "PushEvent", "alice")));
}

#[test]
fn push_event_renders_as_three_lines() {
    let payload = r#"{"id":"1","type":"PushEvent","actor":{"display_login":"alice"}}"#;
    let decoded = decode(frame(payload)).unwrap();
    let text = decoded.render();
    assert_eq!(text, "id: 1\ntype: PushEvent\ndisplay login: alice");
    let lines: Vec<&str> = text.lines().collect();
    assert_eq!(lines, vec!["id: 1", "type: PushEvent", "display login: alice"]);
}

#[test]
fn processor_decodes_like_decode() {
    let payload = r#"{"id":"7","type":"WatchEvent","actor":{"display_login":"bob"}}"#;
    let processor = EventProcessor::new();
    assert_eq!(processor.process_event(frame(payload)), Ok(event("7", "WatchEvent", "bob")));
    assert_eq!(processor.process_event(frame("nope")), decode(frame("nope")));
}

#[test]
fn event_label_of_the_frame_is_not_read() {
    let payload = r#"{"id":"1","type":"PushEvent","actor":{"display_login":"alice"}}"#;
    let labelled = RawFrame { event_type: "event".to_string(), payload: payload.to_string() };
    let unlabelled = RawFrame { event_type: String::new(), payload: payload.to_string() };
    assert_eq!(decode(labelled), decode(unlabelled));
}

#[test]
fn unknown_members_are_passed_over() {
    let payload = r#"{"public":true,"id":"42","repo":{"name":"a/b"},"type":"ForkEvent","actor":{"id":9,"display_login":"carol","url":null},"payload":[1,2,3]}"#;
    assert_eq!(decode(frame(payload)), Ok(event("42", "ForkEvent", "carol")));
}

#[test]
fn empty_strings_are_strings() {
    let payload = r#"{"id":"","type":"","actor":{"display_login":""}}"#;
    assert_eq!(decode(frame(payload)), Ok(event("", "", "")));
}

#[test]
fn white_space_around_the_document_is_allowed() {
    let payload = " \n{ \"id\" : \"1\",\n \"type\" : \"PushEvent\",\n \"actor\" : { \"display_login\" : \"alice\" } }\n";
    assert_eq!(decode(frame(payload)), Ok(event("1", "PushEvent", "alice")));
}

#[test]
fn escapes_in_strings_are_resolved() {
    let payload = r#"{"id":"a\"b","type":"x\ny","actor":{"display_login":"é\\"}}"#;
    assert_eq!(decode(frame(payload)), Ok(event("a\"b", "x\ny", "\u{e9}\\")));
}

#[test]
fn decoding_undoes_encoding() {
    let events = vec![
        event("1", "PushEvent", "alice"),
        event("", "", ""),
        event("id with \"quotes\"", "line\nbreak", "back\\slash"),
        event("\u{1F600}", "tab\there", "\u{0}nul"),
        event("{\"id\":\"x\"}", "[]", "null"),
    ];
    for written in events {
        let payload = encode(&written);
        assert_eq!(decode(frame(&payload)), Ok(written));
    }
}

#[test]
fn payload_that_is_no_json_is_turned_down() {
    let decoded = decode(frame("not json"));
    assert_eq!(decoded, Err(json_error("not json", "expected ident at line 1 column 2")));
}

#[test]
fn empty_payload_is_turned_down() {
    let decoded = decode(frame(""));
    assert_eq!(decoded, Err(json_error("", "EOF while parsing a value at line 1 column 0")));
}

#[test]
fn cut_off_payload_is_turned_down() {
    let payload = r#"{"id":"1","type":"PushEvent","actor":{"display_login":"al"#;
    match decode(frame(payload)) {
        Err(AppError::JsonError { payload: kept, reason }) => {
            assert_eq!(kept, payload);
            assert_eq!(reason, "EOF while parsing a string at line 1 column 57");
        },
        other => panic!("unexpected outcome: {:?}", other),
    }
}

#[test]
fn text_after_the_document_is_turned_down() {
    let payload = r#"{"id":"1","type":"PushEvent","actor":{"display_login":"alice"}} x"#;
    match decode(frame(payload)) {
        Err(AppError::JsonError { payload: kept, reason }) => {
            assert_eq!(kept, payload);
            assert_eq!(reason, "trailing characters at line 1 column 65");
        },
        other => panic!("unexpected outcome: {:?}", other),
    }
}

#[test]
fn missing_id_is_turned_down() {
    let payload = r#"{"type":"PushEvent","actor":{"display_login":"alice"}}"#;
    assert_eq!(decode(frame(payload)), Err(json_error(payload, "missing field `id`")));
}

#[test]
fn missing_type_is_turned_down() {
    let payload = r#"{"id":"1","actor":{"display_login":"alice"}}"#;
    assert_eq!(decode(frame(payload)), Err(json_error(payload, "missing field `type`")));
}

#[test]
fn missing_actor_is_turned_down() {
    let payload = r#"{"id":"1","type":"PushEvent"}"#;
    assert_eq!(decode(frame(payload)), Err(json_error(payload, "missing field `actor`")));
}

#[test]
fn missing_login_is_turned_down() {
    let payload = r#"{"id":"1","type":"PushEvent","actor":{"login":"alice"}}"#;
    assert_eq!(
        decode(frame(payload)),
        Err(json_error(payload, "missing field `actor.display_login`"))
    );
}

#[test]
fn actor_that_is_no_object_has_no_login() {
    let payload = r#"{"id":"1","type":"PushEvent","actor":"alice"}"#;
    assert_eq!(
        decode(frame(payload)),
        Err(json_error(payload, "missing field `actor.display_login`"))
    );
}

#[test]
fn login_at_the_top_level_does_not_count() {
    let payload = r#"{"id":"1","type":"PushEvent","display_login":"alice","actor":{}}"#;
    assert_eq!(
        decode(frame(payload)),
        Err(json_error(payload, "missing field `actor.display_login`"))
    );
}

#[test]
fn id_that_is_a_number_is_turned_down() {
    let payload = r#"{"id":1,"type":"PushEvent","actor":{"display_login":"alice"}}"#;
    assert_eq!(
        decode(frame(payload)),
        Err(json_error(payload, "invalid type for field `id`, expected a string"))
    );
}

#[test]
fn type_that_is_null_is_turned_down() {
    let payload = r#"{"id":"1","type":null,"actor":{"display_login":"alice"}}"#;
    assert_eq!(
        decode(frame(payload)),
        Err(json_error(payload, "invalid type for field `type`, expected a string"))
    );
}

#[test]
fn login_that_is_a_list_is_turned_down() {
    let payload = r#"{"id":"1","type":"PushEvent","actor":{"display_login":["alice"]}}"#;
    assert_eq!(
        decode(frame(payload)),
        Err(json_error(
            payload,
            "invalid type for field `actor.display_login`, expected a string"
        ))
    );
}

#[test]
fn first_failing_field_gives_the_reason() {
    let payload = r#"{"id":true,"actor":7}"#;
    assert_eq!(
        decode(frame(payload)),
        Err(json_error(payload, "invalid type for field `id`, expected a string"))
    );
    let payload = r#"{"id":"1","actor":7}"#;
    assert_eq!(decode(frame(payload)), Err(json_error(payload, "missing field `type`")));
}

#[test]
fn document_that_is_no_object_has_no_fields() {
    for payload in ["null", "true", "17", "\"id\"", "[]", "[{\"id\":\"1\"}]"] {
        assert_eq!(decode(frame(payload)), Err(json_error(payload, "missing field `id`")));
    }
}

#[test]
fn payload_is_kept_whole_in_the_error() {
    let payload = "{\"id\": 1,\n\"more\": \"lines\"}";
    match decode(frame(payload)) {
        Err(AppError::JsonError { payload: kept, .. }) => assert_eq!(kept, payload),
        other => panic!("unexpected outcome: {:?}", other),
    }
}

#[test]
fn inspect_reads_the_three_members() {
    let payload = r#"{"id":"1","type":"PushEvent","actor":{"display_login":"alice"}}"#;
    assert_eq!(
        inspect(payload),
        Ok(Envelope {
            id: Member::Text("1".to_string()),
            event_type: Member::Text("PushEvent".to_string()),
            actor: ActorMember::Present(Member::Text("alice".to_string())),
        })
    );
}

#[test]
fn inspect_tells_absent_from_mistyped() {
    let payload = r#"{"id":3,"actor":{"display_login":false}}"#;
    assert_eq!(
        inspect(payload),
        Ok(Envelope {
            id: Member::NotText,
            event_type: Member::Absent,
            actor: ActorMember::Present(Member::NotText),
        })
    );
    assert_eq!(
        inspect("{}"),
        Ok(Envelope {
            id: Member::Absent,
            event_type: Member::Absent,
            actor: ActorMember::Absent,
        })
    );
    assert_eq!(
        inspect(r#"{"actor":[]}"#),
        Ok(Envelope {
            id: Member::Absent,
            event_type: Member::Absent,
            actor: ActorMember::Present(Member::Absent),
        })
    );
}

#[test]
fn inspect_hands_on_the_message_of_the_parser() {
    assert_eq!(inspect("{"), Err("EOF while parsing an object at line 1 column 1".to_string()));
    assert_eq!(inspect("{\"id\" 1}"), Err("expected `:` at line 1 column 7".to_string()));
}

#[test]
fn last_of_two_equal_keys_is_read() {
    let payload = r#"{"id":"1","id":"2","type":"T","actor":{"display_login":"a"}}"#;
    assert_eq!(decode(frame(payload)), Ok(event("2", "T", "a")));
}

#[test]
fn read_envelope_reads_a_built_document() {
    let mut actor = serde_json::Map::new();
    actor.insert("display_login".to_string(), serde_json::Value::String("dave".to_string()));
    let mut document = serde_json::Map::new();
    document.insert("id".to_string(), serde_json::Value::Bool(true));
    document.insert("actor".to_string(), serde_json::Value::Object(actor));
    let envelope = read_envelope(&serde_json::Value::Object(document));
    assert_eq!(
        envelope,
        Envelope {
            id: Member::NotText,
            event_type: Member::Absent,
            actor: ActorMember::Present(Member::Text("dave".to_string())),
        }
    );
    assert_eq!(
        read_envelope(&serde_json::Value::String("id".to_string())),
        Envelope { id: Member::Absent, event_type: Member::Absent, actor: ActorMember::Absent }
    );
}

#[test]
fn event_from_takes_the_fields_in_order() {
    let whole = Envelope {
        id: Member::Text("1".to_string()),
        event_type: Member::Text("PushEvent".to_string()),
        actor: ActorMember::Present(Member::Text("alice".to_string())),
    };
    assert_eq!(event_from(whole.clone()), Ok(event("1", "PushEvent", "alice")));

    let mut broken = whole.clone();
    broken.actor = ActorMember::Absent;
    assert_eq!(event_from(broken), Err("missing field `actor`".to_string()));

    let mut broken = whole.clone();
    broken.event_type = Member::NotText;
    broken.actor = ActorMember::Present(Member::Absent);
    assert_eq!(
        event_from(broken),
        Err("invalid type for field `type`, expected a string".to_string())
    );

    let mut broken = whole;
    broken.id = Member::Absent;
    broken.event_type = Member::Absent;
    assert_eq!(event_from(broken), Err("missing field `id`".to_string()));
}

#[test]
fn assemble_wraps_every_failure_with_the_payload() {
    let whole = Envelope {
        id: Member::Text("1".to_string()),
        event_type: Member::Text("PushEvent".to_string()),
        actor: ActorMember::Present(Member::Text("alice".to_string())),
    };
    assert_eq!(
        assemble("payload".to_string(), Ok(whole)),
        Ok(event("1", "PushEvent", "alice"))
    );
    assert_eq!(
        assemble("payload".to_string(), Err("no JSON".to_string())),
        Err(json_error("payload", "no JSON"))
    );
    let empty =
        Envelope { id: Member::Absent, event_type: Member::Absent, actor: ActorMember::Absent };
    assert_eq!(
        assemble("payload".to_string(), Ok(empty)),
        Err(json_error("payload", "missing field `id`"))
    );
}
