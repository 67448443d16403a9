use conference_planner::json::{parse_json_object, text_field_or_empty, AnswerError};
use conference_planner::schedule_entries::{self, ScheduleAnswer};
use conference_planner::session::{self, SessionAnswer};

#[test]
fn session_answer_from_speaker_reply() {
    let sessions = session::generate_examples();
    let reply = r#"{"id":1,"full_name":"Albert Einstein","twitter":"@TheAlbertEinstein","bio":"..."}"#;
    let answer = SessionAnswer::from_speaker_reply(&sessions[0], reply).unwrap();
    assert_eq!(answer.id, 1);
    assert_eq!(answer.title, "Relativity is King");
    assert_eq!(answer.tag, "Keynote");
    assert_eq!(answer.description, sessions[0].description);
    assert_eq!(answer.speaker_id, 1);
    assert_eq!(answer.speaker_name, "Albert Einstein");
    assert_eq!(answer.speaker_twitter, "@TheAlbertEinstein");
}

#[test]
fn session_answer_non_text_fields_are_empty() {
    let sessions = session::generate_examples();
    let reply = r#"{"full_name":42,"twitter":null}"#;
    let answer = SessionAnswer::from_speaker_reply(&sessions[1], reply).unwrap();
    assert_eq!(answer.speaker_name, "");
    assert_eq!(answer.speaker_twitter, "");
    assert_eq!(answer.title, "Uncertain about Uncertainty?");
}

#[test]
fn session_answer_errors() {
    let sessions = session::generate_examples();
    assert_eq!(
        SessionAnswer::from_speaker_reply(&sessions[0], "").unwrap_err(),
        AnswerError::InvalidJson
    );
    assert_eq!(
        SessionAnswer::from_speaker_reply(&sessions[0], "[1, 2]").unwrap_err(),
        AnswerError::InvalidJson
    );
    assert_eq!(
        SessionAnswer::from_speaker_reply(&sessions[0], r#"{"full_name":"A"}"#).unwrap_err(),
        AnswerError::MissingField
    );
}

#[test]
fn session_answer_new_from_object() {
    let sessions = session::generate_examples();
    let data = parse_json_object(r#"{"full_name":"Niels Bohr","twitter":"@NielsHenrikDavidBohr"}"#).unwrap();
    let answer = SessionAnswer::new(&sessions[2], &data);
    assert_eq!(answer.speaker_name, "Niels Bohr");
    assert_eq!(answer.speaker_twitter, "@NielsHenrikDavidBohr");
    assert_eq!(answer.id, 3);
}

#[test]
fn schedule_answer_from_session_reply() {
    let entries = schedule_entries::generate_examples();
    let reply = r#"{"id":3,"title":"Welcome to Copenhagen","tag":"","description":"...","speaker_id":3,"speaker_name":"Niels Bohr","speaker_twitter":"@NielsHenrikDavidBohr"}"#;
    let answer = ScheduleAnswer::from_session_reply(entries[2].clone(), reply).unwrap();
    assert_eq!(answer.id, 3);
    assert_eq!(answer.start_time, "12:30");
    assert_eq!(answer.end_time, "13:15");
    assert_eq!(answer.session_id, 3);
    assert_eq!(answer.session_title, "Welcome to Copenhagen");
    assert_eq!(answer.session_tag, "");
    assert_eq!(answer.speaker_name, "Niels Bohr");
}

#[test]
fn schedule_answer_errors() {
    let entries = schedule_entries::generate_examples();
    assert_eq!(
        ScheduleAnswer::from_session_reply(entries[1].clone(), "").unwrap_err(),
        AnswerError::InvalidJson
    );
    assert_eq!(
        ScheduleAnswer::from_session_reply(entries[1].clone(), r#"{"title":"x","tag":"y"}"#).unwrap_err(),
        AnswerError::MissingField
    );
}

#[test]
fn text_fields() {
    let data = parse_json_object(r#"{"a":"text","b":true}"#).unwrap();
    assert_eq!(text_field_or_empty(&data, "a"), "text");
    assert_eq!(text_field_or_empty(&data, "b"), "");
    assert!(parse_json_object("not json").is_none());
}
