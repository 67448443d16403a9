use conference_planner::schedule_entries;
use conference_planner::session::{self, find_session, session_url, speaker_url_for};
use conference_planner::speaker::{self, find_speaker, speaker_url, EINSTEIN_BIO};
use conference_planner::schedule_entries::session_url_for;

#[test]
fn example_speakers() {
    let speakers = speaker::generate_examples();
    assert_eq!(speakers.len(), 4);
    let ids: Vec<u32> = speakers.iter().map(|s| s.id).collect();
    assert_eq!(ids, vec![1, 2, 3, 4]);
    assert_eq!(speakers[0].full_name, "Albert Einstein");
    assert_eq!(speakers[0].twitter, "@TheAlbertEinstein");
    assert_eq!(speakers[0].bio, EINSTEIN_BIO);
    assert!(speakers[0].bio.starts_with("Albert is a German-born theoretical physicist universally \n"));
    assert_eq!(speakers[3].full_name, "Erwin Schrödinger");
    assert_eq!(speakers[3].twitter, "@TheManWithOrWithoutCat");
}

#[test]
fn example_sessions() {
    let sessions = session::generate_examples();
    assert_eq!(sessions.len(), 4);
    assert_eq!(sessions[0].title, "Relativity is King");
    assert_eq!(sessions[0].tag, "Keynote");
    assert_eq!(sessions[1].title, "Uncertain about Uncertainty?");
    assert_eq!(sessions[1].tag, "");
    assert_eq!(sessions[3].title, "Everything you know about cats is wrong!");
    let speaker_ids: Vec<u32> = sessions.iter().map(|s| s.speaker_id).collect();
    assert_eq!(speaker_ids, vec![1, 2, 3, 4]);
}

#[test]
fn example_schedule() {
    let entries = schedule_entries::generate_examples();
    let slots: Vec<(u32, &str, &str, u32)> = entries
        .iter()
        .map(|e| (e.id, e.start_time.as_str(), e.end_time.as_str(), e.session_id))
        .collect();
    assert_eq!(
        slots,
        vec![
            (1, "09:30", "10:15", 1),
            (2, "10:30", "11:15", 5),
            (3, "12:30", "13:15", 3),
            (4, "13:30", "14:15", 4),
            (5, "14:30", "15:15", 2),
        ]
    );
}

#[test]
fn find_speaker_by_id() {
    let speakers = speaker::generate_examples();
    assert_eq!(find_speaker(&speakers, 2).unwrap().full_name, "Werner Heisenberg");
    assert_eq!(find_speaker(&speakers, 4).unwrap().id, 4);
    assert!(find_speaker(&speakers, 0).is_none());
    assert!(find_speaker(&speakers, 5).is_none());
    assert!(find_speaker(&Vec::new(), 1).is_none());
}

#[test]
fn find_takes_first_match() {
    let mut sessions = session::generate_examples();
    let mut copy = sessions[1].clone();
    copy.title = String::from("Second");
    sessions.push(copy);
    assert_eq!(find_session(&sessions, 2).unwrap().title, "Uncertain about Uncertainty?");
    assert!(find_session(&sessions, 9).is_none());
}

#[test]
fn service_addresses() {
    assert_eq!(speaker_url(3), "http://speakers:8081/3");
    assert_eq!(speaker_url(0), "http://speakers:8081/0");
    assert_eq!(session_url(5), "http://sessions:8082/5");
    assert_eq!(session_url(4294967295), "http://sessions:8082/4294967295");
    let sessions = session::generate_examples();
    assert_eq!(speaker_url_for(&sessions[2]), "http://speakers:8081/3");
    let entries = schedule_entries::generate_examples();
    assert_eq!(session_url_for(&entries[1]), "http://sessions:8082/5");
}
