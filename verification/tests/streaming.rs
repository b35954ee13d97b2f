use std::collections::BTreeMap;

use elefren::entities::event::Event;
use elefren::errors::MastodonError;
use elefren::streaming::{
    decode, event_kind, frame_of_lines, make_event, wanted, wanted_of_lines, Entity, EventKind,
    EventReader, EventStream, Frame, Next, Reading, Step, Wanted,
};

// In these tests a status is a JSON object of texts, and a notification a JSON
// array of numbers: two shapes that serde_json decodes without more ado.
type Status = BTreeMap<String, String>;
type Notification = Vec<u32>;
type TestEvent = Event<Status, Notification>;

fn entity(wanted: Wanted) -> Entity<Status, Notification> {
    match wanted {
        Wanted::Status(text) => Entity::Status(serde_json::from_str(&text)),
        Wanted::Notification(text) => Entity::Notification(serde_json::from_str(&text)),
        Wanted::Nothing => Entity::Nothing,
    }
}

fn status(pairs: &[(&str, &str)]) -> Status {
    pairs.iter().map(|(k, v)| (k.to_string(), v.to_string())).collect()
}

fn lines(texts: &[&str]) -> Vec<String> {
    texts.iter().map(|t| t.to_string()).collect()
}

fn frame(name: &str, data: Option<&str>) -> Frame {
    Frame { event_name: Some(name.to_string()), data: data.map(|d| d.to_string()) }
}

/// Frames the lines, decodes what they want, and decodes the event.
fn event_of(texts: &[&str]) -> Result<TestEvent, MastodonError> {
    let lines = lines(texts);
    make_event(&lines, entity(wanted_of_lines(&lines)))
}

fn decoded(frame: Frame) -> Result<TestEvent, MastodonError> {
    let entity = entity(wanted(&frame));
    decode(frame, entity)
}

struct Script {
    messages: Vec<Result<String, ()>>,
    at: usize,
}

impl Script {
    fn new(messages: &[Result<&str, ()>]) -> Script {
        Script { messages: messages.iter().map(|m| m.map(|t| t.to_string())).collect(), at: 0 }
    }
}

impl EventStream for Script {
    fn read_message(&mut self) -> Result<String, MastodonError> {
        let i = self.at;
        self.at += 1;
        match self.messages.get(i) {
            Some(Ok(text)) => Ok(text.clone()),
            _ => Err(MastodonError::Other("closed".to_string())),
        }
    }
}

/// Reads on as a caller does: decodes what is wanted and hands it in.
fn next_event(reader: &mut EventReader<Script>, reads: usize) -> Option<Result<TestEvent, String>> {
    match reader.next_within::<Status, Notification>(reads) {
        Next::Event(event) => Some(Ok(event)),
        Next::Wanted(wanted) => match reader.settle(entity(wanted)) {
            Step::Decoded(event) => Some(Ok(event)),
            Step::Failed(e) => Some(Err(e.description())),
            Step::Skipped => None,
        },
        Next::Closed | Next::More => None,
    }
}

#[test]
fn test_filters_changed_without_data() {
    assert_eq!(decoded(frame("filters_changed", None)).expect("no event"), Event::FiltersChanged);
    assert_eq!(event_of(&["event: filters_changed"]).expect("no event"), Event::FiltersChanged);
    // a payload does no harm, and nothing is wanted decoded
    assert_eq!(
        decoded(frame("filters_changed", Some("ignored"))).expect("no event"),
        Event::FiltersChanged
    );
    assert_eq!(wanted(&frame("filters_changed", Some("ignored"))), Wanted::Nothing);
    let any: Entity<Status, Notification> = Entity::Status(Ok(status(&[])));
    assert_eq!(decode(frame("filters_changed", None), any).expect("no event"), Event::FiltersChanged);
}

#[test]
fn test_notification_without_data_is_missing_data() {
    assert!(matches!(decoded(frame("notification", None)), Err(MastodonError::MissingData)));
    assert!(matches!(event_of(&["event: notification"]), Err(MastodonError::MissingData)));
    assert!(matches!(decoded(frame("update", None)), Err(MastodonError::MissingData)));
    assert!(matches!(decoded(frame("delete", None)), Err(MastodonError::MissingData)));
    let any: Entity<Status, Notification> = Entity::Notification(Ok(vec![1]));
    assert!(matches!(decode(frame("notification", None), any), Err(MastodonError::MissingData)));
}

#[test]
fn test_bogus_event_is_unknown() {
    match event_of(&["event: bogus"]) {
        Err(MastodonError::UnknownEvent(name)) => assert_eq!(name, "bogus"),
        _ => panic!("bogus was not refused as unknown"),
    }
    match decoded(frame("bogus", Some("{}"))) {
        Err(MastodonError::UnknownEvent(name)) => assert_eq!(name, "bogus"),
        _ => panic!("bogus was not refused as unknown"),
    }
    match decoded(Frame { event_name: None, data: None }) {
        Err(MastodonError::UnknownEvent(name)) => assert_eq!(name, ""),
        _ => panic!("a frame without a name was decoded"),
    }
    // names are case sensitive
    assert!(matches!(decoded(frame("Update", Some("{}"))), Err(MastodonError::UnknownEvent(_))));
    assert_eq!(wanted(&frame("Update", Some("{}"))), Wanted::Nothing);
}

#[test]
fn test_json_frame_delete() {
    let event = event_of(&[r#"{"event":"delete","payload":"42"}"#]).expect("no event");
    assert_eq!(event, Event::Delete("42".to_string()));
}

#[test]
fn test_json_frame_forms() {
    // payload may be absent or null
    assert_eq!(event_of(&[r#"{"event":"filters_changed"}"#]).expect("no event"), Event::FiltersChanged);
    assert_eq!(
        event_of(&[r#"{"payload":null,"event":"filters_changed"}"#]).expect("no event"),
        Event::FiltersChanged
    );
    assert!(matches!(
        event_of(&[r#"{"event":"delete","payload":null}"#]),
        Err(MastodonError::MissingData)
    ));
    // the payload of an update is a status, escaped as a JSON string
    let line = r#"{"event":"update","payload":"{\"id\":\"7\"}"}"#;
    assert_eq!(wanted_of_lines(&lines(&[line])), Wanted::Status(r#"{"id":"7"}"#.to_string()));
    assert_eq!(event_of(&[line]).expect("no event"), Event::Update(status(&[("id", "7")])));
    // unknown members are passed over
    let event = event_of(&[r#"{"stream":["user"],"event":"delete","payload":"9"}"#]).expect("no event");
    assert_eq!(event, Event::Delete("9".to_string()));
    // not JSON at all
    assert!(matches!(event_of(&["hello"]), Err(MastodonError::Serde(_))));
    // JSON, but no object
    assert!(matches!(event_of(&["[1,2]"]), Err(MastodonError::Serde(_))));
    // an object without an event, with an event that is no text, with a payload that is no text
    assert!(matches!(event_of(&[r#"{"payload":"1"}"#]), Err(MastodonError::Other(_))));
    assert!(matches!(event_of(&[r#"{"event":5}"#]), Err(MastodonError::Other(_))));
    assert!(matches!(
        event_of(&[r#"{"event":"delete","payload":42}"#]),
        Err(MastodonError::Other(_))
    ));
    // no line at all
    assert!(matches!(event_of(&[]), Err(MastodonError::Other(_))));
    assert_eq!(wanted_of_lines(&lines(&["hello"])), Wanted::Nothing);
    assert_eq!(wanted_of_lines(&lines(&[])), Wanted::Nothing);
}

#[test]
fn test_update_round_trip() {
    let json = r#"{"id":"1","content":"<p>hi</p>","spoiler_text":"a b"}"#;
    let data = format!("data:   {}  ", json);
    let lines = lines(&["event: update", &data]);
    // the payload comes out character for character
    assert_eq!(wanted_of_lines(&lines), Wanted::Status(json.to_string()));
    let original: Status = serde_json::from_str(json).expect("bad test");
    let event: TestEvent = make_event(&lines, Entity::Status(Ok(original.clone()))).expect("no event");
    assert_eq!(event, Event::Update(original.clone()));
    assert_eq!(event_of(&["event: update", &data]).expect("no event"), Event::Update(original));
    // and so for a notification
    let lines2 = self::lines(&["event: notification", "data: [1, 2]"]);
    assert_eq!(wanted_of_lines(&lines2), Wanted::Notification("[1, 2]".to_string()));
    assert_eq!(
        event_of(&["event: notification", "data: [1, 2]"]).expect("no event"),
        Event::Notification(vec![1, 2])
    );
}

#[test]
fn test_payload_that_does_not_decode() {
    // malformed JSON
    assert!(matches!(
        event_of(&["event: update", "data: {not json"]),
        Err(MastodonError::Serde(_))
    ));
    // JSON of another shape than the entity
    assert!(matches!(event_of(&["event: update", "data: {\"id\":7}"]), Err(MastodonError::Serde(_))));
    assert!(matches!(event_of(&["event: update", "data: {}"]), Ok(Event::Update(_))));
    assert!(matches!(
        event_of(&["event: notification", "data: {}"]),
        Err(MastodonError::Serde(_))
    ));
    // the error is the decoder's own
    let e = serde_json::from_str::<Status>("{").unwrap_err();
    let text = e.to_string();
    let r: Result<TestEvent, _> = decode(frame("update", Some("{")), Entity::Status(Err(e)));
    match r {
        Err(MastodonError::Serde(e)) => assert_eq!(e.to_string(), text),
        _ => panic!("the error of the decoding was not handed on"),
    }
    // an entity of the other kind, or none, does not stand in for the one that is wanted
    let r: Result<TestEvent, _> = decode(frame("update", Some("{}")), Entity::Nothing);
    assert!(matches!(r, Err(MastodonError::Other(_))));
    let r: Result<TestEvent, _> = decode(frame("update", Some("{}")), Entity::Notification(Ok(vec![])));
    assert!(matches!(r, Err(MastodonError::Other(_))));
    let r: Result<TestEvent, _> =
        decode(frame("notification", Some("[]")), Entity::Status(Ok(status(&[]))));
    assert!(matches!(r, Err(MastodonError::Other(_))));
}

#[test]
fn test_delete_payload_is_the_id() {
    assert_eq!(
        event_of(&["event: delete", "data: 12345"]).expect("no event"),
        Event::Delete("12345".to_string())
    );
    // no JSON decoding of the id
    assert_eq!(
        event_of(&["event: delete", "data: \"12345\""]).expect("no event"),
        Event::Delete("\"12345\"".to_string())
    );
    assert_eq!(wanted(&frame("delete", Some("12345"))), Wanted::Nothing);
}

#[test]
fn test_frame_of_lines() {
    let f = frame_of_lines(&lines(&["event:   update  ", "data:\t{\"a\":1} "])).expect("no frame");
    assert_eq!(f, frame("update", Some("{\"a\":1}")));
    // only the first event line and the first data line count
    let f = frame_of_lines(&lines(&["data: one", "event: delete", "data: two", "event: update"]))
        .expect("no frame");
    assert_eq!(f, frame("delete", Some("one")));
    let f = frame_of_lines(&lines(&["event:"])).expect("no frame");
    assert_eq!(f, frame("", None));
    // a prefix is a prefix: no space before it, and the colon belongs to it
    assert!(frame_of_lines(&lines(&["event update"])).is_err());
    let f = frame_of_lines(&lines(&["event:a:b", "data:\u{a0}x\u{3000}"])).expect("no frame");
    assert_eq!(f, frame("a:b", Some("x")));
}

#[test]
fn test_event_kind() {
    assert_eq!(event_kind("update"), Some(EventKind::Update));
    assert_eq!(event_kind("notification"), Some(EventKind::Notification));
    assert_eq!(event_kind("delete"), Some(EventKind::Delete));
    assert_eq!(event_kind("filters_changed"), Some(EventKind::FiltersChanged));
    assert_eq!(event_kind("updat"), None);
    assert_eq!(event_kind("updates"), None);
    assert_eq!(event_kind(""), None);
    assert_eq!(wanted(&frame("update", Some("x"))), Wanted::Status("x".to_string()));
    assert_eq!(wanted(&frame("notification", Some("x"))), Wanted::Notification("x".to_string()));
    assert_eq!(wanted(&frame("update", None)), Wanted::Nothing);
}

#[test]
fn test_reader_steps() {
    let mut reader = EventReader::new(Script::new(&[]));
    let nothing = || Entity::<Status, Notification>::Nothing;
    // comments and blank lines add nothing, and nothing is tried while nothing waits
    assert_eq!(reader.take_line(":thump"), Wanted::Nothing);
    assert!(matches!(reader.settle(nothing()), Step::Skipped));
    assert_eq!(reader.take_line("   "), Wanted::Nothing);
    assert_eq!(reader.take_line(""), Wanted::Nothing);
    assert!(reader.lines.is_empty());
    // an event that needs data waits for it
    assert_eq!(reader.take_line("event: update\n"), Wanted::Nothing);
    assert!(matches!(reader.settle(nothing()), Step::Failed(MastodonError::MissingData)));
    assert_eq!(reader.lines, vec!["event: update".to_string()]);
    // a terminator adds nothing; the waiting lines are tried again and stay
    assert_eq!(reader.take_line("\n"), Wanted::Nothing);
    assert!(matches!(reader.settle(nothing()), Step::Failed(MastodonError::MissingData)));
    assert_eq!(reader.lines, vec!["event: update".to_string()]);
    // the payload is wanted as a status
    let wanted = reader.take_line("data: {\"id\":\"3\"}\n");
    assert_eq!(wanted, Wanted::Status("{\"id\":\"3\"}".to_string()));
    assert_eq!(reader.lines.len(), 2);
    match reader.settle(entity(wanted)) {
        Step::Decoded(Event::Update(s)) => assert_eq!(s, status(&[("id", "3")])),
        _ => panic!("the frame did not decode"),
    }
    assert!(reader.lines.is_empty());
    // a frame that is complete with one line
    assert_eq!(reader.take_line("  event: filters_changed  "), Wanted::Nothing);
    assert!(matches!(reader.settle(nothing()), Step::Decoded(Event::FiltersChanged)));
    assert!(reader.lines.is_empty());
    reader.take_line("event: nonsense");
    match reader.settle(nothing()) {
        Step::Failed(MastodonError::UnknownEvent(name)) => assert_eq!(name, "nonsense"),
        _ => panic!("nonsense decoded"),
    }
    assert_eq!(reader.lines.len(), 1);
    let event: TestEvent = reader
        .make_event(&lines(&["event: delete", "data: 1"]), Entity::Nothing)
        .expect("no event");
    assert_eq!(event, Event::Delete("1".to_string()));
}

#[test]
fn test_frame_is_complete_no_sooner_than_its_entity_decodes() {
    let mut reader = EventReader::new(Script::new(&[]));
    assert_eq!(reader.take_line("event: update"), Wanted::Nothing);
    let wanted = reader.take_line("data: {\"id\":7}");
    assert_eq!(wanted, Wanted::Status("{\"id\":7}".to_string()));
    // the payload is JSON, but no status: the lines stay
    assert!(matches!(reader.settle(entity(wanted)), Step::Failed(MastodonError::Serde(_))));
    assert_eq!(reader.lines, lines(&["event: update", "data: {\"id\":7}"]));
    // handing in nothing where a status is wanted does not complete the frame either
    assert!(matches!(
        reader.settle(Entity::<Status, Notification>::Nothing),
        Step::Failed(MastodonError::Other(_))
    ));
    assert_eq!(reader.lines.len(), 2);
    // once a status is handed in, the frame is complete
    match reader.settle(Entity::<Status, Notification>::Status(Ok(status(&[("id", "7")])))) {
        Step::Decoded(Event::Update(s)) => assert_eq!(s, status(&[("id", "7")])),
        _ => panic!("the frame did not decode"),
    }
    assert!(reader.lines.is_empty());
}

#[test]
fn test_reader_after_read() {
    let mut reader = EventReader::new(Script::new(&[]));
    assert!(matches!(reader.after_read(Ok("event: delete".to_string())), Reading::Line(Wanted::Nothing)));
    assert_eq!(reader.lines.len(), 1);
    // a read that failed closes the stream and leaves the lines
    assert!(matches!(
        reader.after_read(Err(MastodonError::Other("closed".to_string()))),
        Reading::Closed
    ));
    assert_eq!(reader.lines, vec!["event: delete".to_string()]);
    assert!(matches!(reader.after_read(Ok("data: 4".to_string())), Reading::Line(Wanted::Nothing)));
    assert!(matches!(
        reader.settle(Entity::<Status, Notification>::Nothing),
        Step::Decoded(Event::Delete(_))
    ));
    match reader.after_read(Ok("event: notification".to_string())) {
        Reading::Line(Wanted::Nothing) => {},
        _ => panic!("something was wanted for an event without payload"),
    }
    match reader.after_read(Ok("data: [3]".to_string())) {
        Reading::Line(Wanted::Notification(text)) => assert_eq!(text, "[3]"),
        _ => panic!("the notification was not wanted"),
    }
}

#[test]
fn test_reader_read_step() {
    let script = Script::new(&[Ok(":)"), Ok("event: delete"), Ok("data: 5"), Err(())]);
    let mut reader = EventReader::new(script);
    assert!(matches!(reader.read_step(), Reading::Line(Wanted::Nothing)));
    assert!(reader.lines.is_empty());
    assert!(matches!(reader.read_step(), Reading::Line(Wanted::Nothing)));
    assert_eq!(reader.lines.len(), 1);
    assert!(matches!(reader.read_step(), Reading::Line(Wanted::Nothing)));
    assert_eq!(reader.lines.len(), 2);
    assert!(matches!(reader.read_step(), Reading::Closed));
    assert_eq!(reader.lines.len(), 2);
    assert_eq!(reader.stream.at, 4);
}

#[test]
fn test_reader_next_within() {
    let script = Script::new(&[
        Ok(":)"),
        Ok(""),
        Ok("event: delete"),
        Ok("data: 77"),
        Ok(r#"{"event":"delete","payload":"78"}"#),
        Ok("event: filters_changed"),
        Ok("event: update"),
        Ok("data: {\"id\":\"79\"}"),
        Ok("event: delete"),
        Err(()),
        Ok("data: 80"),
    ]);
    let mut reader = EventReader::new(script);
    assert!(matches!(reader.next_within::<Status, Notification>(0), Next::More));
    assert_eq!(reader.stream.at, 0);
    assert!(matches!(reader.next_within::<Status, Notification>(2), Next::More));
    assert_eq!(reader.stream.at, 2);
    match reader.next_within::<Status, Notification>(10) {
        Next::Event(event) => assert_eq!(event, Event::Delete("77".to_string())),
        _ => panic!("no event"),
    }
    assert_eq!(reader.stream.at, 4);
    assert!(reader.lines.is_empty());
    assert_eq!(next_event(&mut reader, 10), Some(Ok(Event::Delete("78".to_string()))));
    assert_eq!(next_event(&mut reader, 1), Some(Ok(Event::FiltersChanged)));
    // the reading stops where a payload has to be decoded, and the lines wait
    match reader.next_within::<Status, Notification>(10) {
        Next::Wanted(Wanted::Status(text)) => {
            assert_eq!(text, "{\"id\":\"79\"}");
            assert_eq!(reader.lines.len(), 2);
            assert_eq!(reader.stream.at, 8);
            match reader.settle(entity(Wanted::Status(text))) {
                Step::Decoded(Event::Update(s)) => assert_eq!(s, status(&[("id", "79")])),
                _ => panic!("the update did not decode"),
            }
        },
        _ => panic!("the status was not wanted"),
    }
    assert!(reader.lines.is_empty());
    // a message that cannot be read closes the stream, and the lines wait
    assert!(matches!(reader.next_within::<Status, Notification>(10), Next::Closed));
    assert_eq!(reader.stream.at, 10);
    assert_eq!(reader.lines, vec!["event: delete".to_string()]);
    assert_eq!(next_event(&mut reader, 10), Some(Ok(Event::Delete("80".to_string()))));
    // when every read fails, reading ends at the first of them
    assert!(matches!(reader.next_within::<Status, Notification>(1000), Next::Closed));
    let script = reader.into_inner();
    assert_eq!(script.at, 12);
}

#[test]
fn test_reader_hands_errors_of_decoding_out() {
    let script = Script::new(&[Ok("event: notification"), Ok("data: {}"), Ok("event: delete")]);
    let mut reader = EventReader::new(script);
    match next_event(&mut reader, 10) {
        Some(Err(text)) => assert!(!text.is_empty()),
        _ => panic!("the error of the decoding was lost"),
    }
    // the lines wait on, and the first data line stays the payload
    assert_eq!(reader.lines.len(), 2);
    match reader.next_within::<Status, Notification>(10) {
        Next::Wanted(Wanted::Notification(text)) => assert_eq!(text, "{}"),
        _ => panic!("the notification was not wanted again"),
    }
    assert_eq!(reader.lines.len(), 3);
}
