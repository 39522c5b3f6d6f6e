use academic_tracker::event::{ExtractionError, ParsedEvent};
use academic_tracker::json_slice::extract_json;
use academic_tracker::pattern::{category_event_of, event_from_captures, simple_parse};
use academic_tracker::pipeline::{
    begin_extraction, build_prompt, chat_reply, finish_extraction, parse_model_text, Extraction,
    ModelReply, HELP_REPLY,
};
use academic_tracker::record::{decode_record, record_from_object, response_text};

fn event(title: &str, event_type: &str, date: &str, description: &str) -> ParsedEvent {
    ParsedEvent {
        title: title.to_string(),
        event_type: event_type.to_string(),
        date: date.to_string(),
        description: description.to_string(),
    }
}

fn envelope(response: &str) -> String {
    let mut m = serde_json::Map::new();
    m.insert("response".to_string(), serde_json::Value::String(response.to_string()));
    serde_json::Value::Object(m).to_string()
}

#[test]
fn workshop_message_resolves_without_model() {
    match begin_extraction("Add workshop on 2025-11-15") {
        Extraction::Resolved(e) => assert_eq!(
            e,
            event("Workshop Event", "workshop", "2025-11-15", "Created via chat")
        ),
        Extraction::AskModel(_) => panic!("the template should have matched"),
    }
}

#[test]
fn uppercase_category_matches() {
    let e = simple_parse("ADD TEST on 2026-01-01").expect("template match");
    assert_eq!(e.event_type, "test");
    assert_eq!(e.date, "2026-01-01");
    assert_eq!(e.title, "Test Event");
}

#[test]
fn template_matches_inside_longer_text() {
    let e = simple_parse("please add Seminar on 2025-03-04, thanks").expect("template match");
    assert_eq!(e, event("Seminar Event", "seminar", "2025-03-04", "Created via chat"));
}

#[test]
fn unknown_category_or_shape_defers() {
    assert!(simple_parse("add party on 2025-11-15").is_none());
    assert!(simple_parse("add workshop 2025-11-15").is_none());
    assert!(simple_parse("add workshop on 2025-1-15").is_none());
    assert!(simple_parse("").is_none());
}

#[test]
fn free_text_asks_model_with_prompt() {
    let msg = "please schedule something next month";
    match begin_extraction(msg) {
        Extraction::AskModel(p) => {
            assert_eq!(p, build_prompt(msg));
            assert!(p.starts_with("Extract event details from: 'please schedule something next month'"));
        }
        Extraction::Resolved(_) => panic!("the model should be asked"),
    }
}

#[test]
fn prompt_embeds_message_exactly() {
    assert_eq!(
        build_prompt("hi"),
        "Extract event details from: 'hi'\n\nReturn ONLY JSON:\n{\n  \"title\": \"name\",\n  \"event_type\": \"workshop\",\n  \"date\": \"2025-11-15\",\n  \"description\": \"desc\"\n}"
    );
}

#[test]
fn model_json_fields_returned_verbatim() {
    let body = envelope("{\"title\":\"Study Group\",\"event_type\":\"meetup\",\"date\":\"next month\",\"description\":\"\"}");
    let r = finish_extraction(&ModelReply::Replied(body));
    assert_eq!(r, Ok(event("Study Group", "meetup", "next month", "")));
}

#[test]
fn unreachable_model_fails_with_help_reply() {
    let r = finish_extraction(&ModelReply::Unreachable);
    assert_eq!(r, Err(ExtractionError::ModelUnreachable));
    assert_eq!(chat_reply(&r), HELP_REPLY);
    assert_eq!(chat_reply(&r), "I couldn't understand that. Try: 'Add workshop on 2025-11-15'");
}

#[test]
fn text_without_braces_gives_no_json() {
    let r = finish_extraction(&ModelReply::Replied(envelope("I cannot help with that.")));
    assert_eq!(r, Err(ExtractionError::NoJsonFound));
    assert_eq!(parse_model_text("only an opening { here"), Err(ExtractionError::NoJsonFound));
    assert_eq!(parse_model_text("} reversed {"), Err(ExtractionError::NoJsonFound));
}

#[test]
fn json_in_prose_is_extracted() {
    let text = "Here you go: {\"title\":\"X\",\"event_type\":\"workshop\",\"date\":\"2025-11-15\",\"description\":\"d\"} Hope it helps.";
    assert_eq!(parse_model_text(text), Ok(event("X", "workshop", "2025-11-15", "d")));
    let r = finish_extraction(&ModelReply::Replied(envelope(text)));
    assert_eq!(r, Ok(event("X", "workshop", "2025-11-15", "d")));
}

#[test]
fn missing_fields_are_malformed() {
    assert_eq!(parse_model_text("Sure! {\"title\":\"Demo\"}"), Err(ExtractionError::MalformedJson));
}

#[test]
fn wrong_field_type_is_malformed() {
    assert_eq!(
        decode_record("{\"title\":1,\"event_type\":\"a\",\"date\":\"b\",\"description\":\"c\"}"),
        Err(ExtractionError::MalformedJson)
    );
    assert_eq!(decode_record("{not json}"), Err(ExtractionError::MalformedJson));
}

#[test]
fn extra_fields_are_ignored() {
    assert_eq!(
        decode_record("{\"title\":\"T\",\"event_type\":\"a\",\"date\":\"b\",\"description\":\"c\",\"room\":5}"),
        Ok(event("T", "a", "b", "c"))
    );
}

#[test]
fn object_fields_read_from_map() {
    let obj: serde_json::Map<String, serde_json::Value> =
        serde_json::from_str("{\"title\":\"T\",\"event_type\":\"seminar\",\"date\":\"2025-01-01\",\"description\":\"x\"}").unwrap();
    assert_eq!(record_from_object(&obj), Ok(event("T", "seminar", "2025-01-01", "x")));
    let partial: serde_json::Map<String, serde_json::Value> =
        serde_json::from_str("{\"title\":\"T\",\"date\":\"2025-01-01\"}").unwrap();
    assert_eq!(record_from_object(&partial), Err(ExtractionError::MalformedJson));
}

#[test]
fn envelope_without_response_is_invalid() {
    assert_eq!(response_text("not json"), Err(ExtractionError::ModelResponseInvalid));
    assert_eq!(response_text("{\"other\":\"x\"}"), Err(ExtractionError::ModelResponseInvalid));
    assert_eq!(response_text("{\"response\":5}"), Err(ExtractionError::ModelResponseInvalid));
    assert_eq!(response_text("{\"response\":\"ok\"}"), Ok("ok".to_string()));
    assert_eq!(
        finish_extraction(&ModelReply::Replied("<html>".to_string())),
        Err(ExtractionError::ModelResponseInvalid)
    );
}

#[test]
fn json_slice_runs_from_first_to_last_brace() {
    assert_eq!(extract_json("abc {x} def} g"), Ok("{x} def}".to_string()));
    assert_eq!(extract_json("{}"), Ok("{}".to_string()));
    assert_eq!(extract_json("é{ü}é"), Ok("{ü}".to_string()));
    assert_eq!(extract_json(""), Err(ExtractionError::NoJsonFound));
}

#[test]
fn category_is_capitalized_in_title() {
    assert_eq!(
        category_event_of("bootcamp", "2025-02-03"),
        event("Bootcamp Event", "bootcamp", "2025-02-03", "Created via chat")
    );
    assert_eq!(category_event_of("", "d").title, " Event");
}

#[test]
fn captured_category_is_lowered() {
    let e = event_from_captures("BootCamp", "2025-02-03");
    assert_eq!(e.event_type, "bootcamp");
    assert_eq!(e.title, "Bootcamp Event");
}

#[test]
fn confirmation_reply_names_title() {
    let r = Ok(event("Workshop Event", "workshop", "2025-11-15", "Created via chat"));
    assert_eq!(chat_reply(&r), "✓ Got it! Creating: Workshop Event");
    assert_eq!(chat_reply(&Err(ExtractionError::MalformedJson)), HELP_REPLY);
}
