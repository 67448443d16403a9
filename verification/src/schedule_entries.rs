//! The schedule of the conference, and the answer that the schedule service
//! gives for an entry: the slot with its session's title, tag and speaker.

use vstd::prelude::*;
use crate::ids::ids_distinct;
use crate::json::{AnswerError, has_field, json_object_fields, json_object_parse, parse_json_object, text_field_or_empty, text_or_empty};
use crate::session::{example_sessions, session_url, session_url_text, SessionView};

verus! {

/// A slot of the schedule, given to a session.
#[derive(Clone, Debug)]
pub struct ScheduleEntry {
    pub id: u32,
    pub start_time: String,
    pub end_time: String,
    pub session_id: u32,
}

/// A slot of the schedule, with each text as its characters.
pub struct ScheduleEntryView {
    pub id: u32,
    pub start_time: Seq<char>,
    pub end_time: Seq<char>,
    pub session_id: u32,
}

impl View for ScheduleEntry {
    type V = ScheduleEntryView;

    open spec fn view(&self) -> ScheduleEntryView {
        ScheduleEntryView {
            id: self.id,
            start_time: self.start_time@,
            end_time: self.end_time@,
            session_id: self.session_id,
        }
    }
}

/// The slots that the service starts with.
pub open spec fn example_entries() -> Seq<ScheduleEntryView> {
    seq![
        ScheduleEntryView {
            id: 1,
            start_time: "09:30"@,
            end_time: "10:15"@,
            session_id: 1,
        },
        ScheduleEntryView {
            id: 2,
            start_time: "10:30"@,
            end_time: "11:15"@,
            session_id: 5,
        },
        ScheduleEntryView {
            id: 3,
            start_time: "12:30"@,
            end_time: "13:15"@,
            session_id: 3,
        },
        ScheduleEntryView {
            id: 4,
            start_time: "13:30"@,
            end_time: "14:15"@,
            session_id: 4,
        },
        ScheduleEntryView {
            id: 5,
            start_time: "14:30"@,
            end_time: "15:15"@,
            session_id: 2,
        },
    ]
}

/// The views of a list of slots.
pub open spec fn entry_views(entries: Seq<ScheduleEntry>) -> Seq<ScheduleEntryView> {
    entries.map_values(|e: ScheduleEntry| e@)
}

/// The slots that the service starts with.
pub fn generate_examples() -> (entries: Vec<ScheduleEntry>)
    ensures
        entry_views(entries@) == example_entries(),
{
    let entries = vec![
        ScheduleEntry {
            id: 1,
            start_time: String::from_str("09:30"),
            end_time: String::from_str("10:15"),
            session_id: 1,
        },
        ScheduleEntry {
            id: 2,
            start_time: String::from_str("10:30"),
            end_time: String::from_str("11:15"),
            session_id: 5,
        },
        ScheduleEntry {
            id: 3,
            start_time: String::from_str("12:30"),
            end_time: String::from_str("13:15"),
            session_id: 3,
        },
        ScheduleEntry {
            id: 4,
            start_time: String::from_str("13:30"),
            end_time: String::from_str("14:15"),
            session_id: 4,
        },
        ScheduleEntry {
            id: 5,
            start_time: String::from_str("14:30"),
            end_time: String::from_str("15:15"),
            session_id: 2,
        },
    ];
    assert(entry_views(entries@) =~= example_entries());
    entries
}

/// The slots the service starts with have the ids 1 to 5, in order, and
/// give the sessions 1, 5, 3, 4 and 2; no slot id and no session occurs
/// twice.
pub proof fn lemma_example_entry_ids()
    ensures
        example_entries().map_values(|e: ScheduleEntryView| e.id) =~= seq![1u32, 2, 3, 4, 5],
        ids_distinct(example_entries().map_values(|e: ScheduleEntryView| e.id)),
        example_entries().map_values(|e: ScheduleEntryView| e.session_id) =~= seq![1u32, 5, 3, 4, 2],
        ids_distinct(example_entries().map_values(|e: ScheduleEntryView| e.session_id)),
{
}

/// The answer for a slot: the slot with the title, the tag and the speaker
/// of its session.
#[derive(Clone, Debug)]
pub struct ScheduleAnswer {
    pub id: u32,
    pub start_time: String,
    pub end_time: String,
    pub session_id: u32,
    pub session_title: String,
    pub session_tag: String,
    pub speaker_name: String,
}

/// An answer for a slot, with each text as its characters.
pub struct ScheduleAnswerView {
    pub id: u32,
    pub start_time: Seq<char>,
    pub end_time: Seq<char>,
    pub session_id: u32,
    pub session_title: Seq<char>,
    pub session_tag: Seq<char>,
    pub speaker_name: Seq<char>,
}

impl View for ScheduleAnswer {
    type V = ScheduleAnswerView;

    open spec fn view(&self) -> ScheduleAnswerView {
        ScheduleAnswerView {
            id: self.id,
            start_time: self.start_time@,
            end_time: self.end_time@,
            session_id: self.session_id,
            session_title: self.session_title@,
            session_tag: self.session_tag@,
            speaker_name: self.speaker_name@,
        }
    }
}

/// The answer for `entry` given the fields of its session's answer: the
/// slot's own fields, and the session's `title`, `tag` and `speaker_name`,
/// each empty where it is not a JSON string.
pub open spec fn schedule_answer(entry: ScheduleEntryView, session: Map<Seq<char>, Option<Seq<char>>>) -> ScheduleAnswerView {
    ScheduleAnswerView {
        id: entry.id,
        start_time: entry.start_time,
        end_time: entry.end_time,
        session_id: entry.session_id,
        session_title: text_or_empty(session["title"@]),
        session_tag: text_or_empty(session["tag"@]),
        speaker_name: text_or_empty(session["speaker_name"@]),
    }
}

/// The session's record has the fields that an answer reads.
pub open spec fn has_session_fields(session: Map<Seq<char>, Option<Seq<char>>>) -> bool {
    &&& session.dom().contains("title"@)
    &&& session.dom().contains("tag"@)
    &&& session.dom().contains("speaker_name"@)
}

impl ScheduleAnswer {
    /// The answer for `entry`, from its session's record.
    pub fn new(entry: ScheduleEntry, session_data: &serde_json::Map<String, serde_json::Value>) -> (res: ScheduleAnswer)
        requires
            has_session_fields(json_object_fields(*session_data)),
        ensures
            res@ == schedule_answer(entry@, json_object_fields(*session_data)),
    {
        let session_title = text_field_or_empty(session_data, "title");
        let session_tag = text_field_or_empty(session_data, "tag");
        let speaker_name = text_field_or_empty(session_data, "speaker_name");
        ScheduleAnswer {
            id: entry.id,
            start_time: entry.start_time,
            end_time: entry.end_time,
            session_id: entry.session_id,
            session_title,
            session_tag,
            speaker_name,
        }
    }

    /// The answer for `entry`, from the reply of the sessions service: an
    /// error where the reply is not a JSON object or lacks `title`, `tag` or
    /// `speaker_name`.
    pub fn from_session_reply(entry: ScheduleEntry, reply: &str) -> (res: Result<ScheduleAnswer, AnswerError>)
        ensures
            match json_object_parse(reply@) {
                None => res == Err::<ScheduleAnswer, AnswerError>(AnswerError::InvalidJson),
                Some(fields) => if has_session_fields(fields) {
                    res matches Ok(answer) && answer@ == schedule_answer(entry@, fields)
                } else {
                    res == Err::<ScheduleAnswer, AnswerError>(AnswerError::MissingField)
                },
            },
    {
        match parse_json_object(reply) {
            None => Err(AnswerError::InvalidJson),
            Some(data) => {
                if has_field(&data, "title") && has_field(&data, "tag") && has_field(&data, "speaker_name") {
                    Ok(ScheduleAnswer::new(entry, &data))
                } else {
                    Err(AnswerError::MissingField)
                }
            },
        }
    }
}

/// The address from which the answer for `entry` takes its session's
/// record.
pub fn session_url_for(entry: &ScheduleEntry) -> (res: String)
    ensures
        res@ == session_url_text(entry.session_id),
{
    session_url(entry.session_id)
}

/// Every slot the service starts with but the second gives a session that
/// the sessions service starts with; the second gives session 5, which that
/// service does not have.
pub proof fn lemma_example_entries_find_sessions()
    ensures
        forall|i: int| 0 <= i < example_entries().len() && i != 1 ==>
            example_sessions().map_values(|s: SessionView| s.id).contains(
                #[trigger] example_entries()[i].session_id,
            ),
        !example_sessions().map_values(|s: SessionView| s.id).contains(example_entries()[1].session_id),
{
    let ids = example_sessions().map_values(|s: SessionView| s.id);
    assert(ids =~= seq![1u32, 2, 3, 4]);
    assert(ids[0] == 1 && ids[1] == 2 && ids[2] == 3 && ids[3] == 4);
}

/// What the schedule service starts with, slot by slot: a list made by
/// `generate_examples` holds five slots; slot 1 runs 09:30-10:15 for session
/// 1, slot 2 10:30-11:15 for session 5, slot 3 12:30-13:15 for session 3,
/// slot 4 13:30-14:15 for session 4 and slot 5 14:30-15:15 for session 2.
pub proof fn lemma_example_entries_by_id(entries: Seq<ScheduleEntry>)
    requires
        entry_views(entries) == example_entries(),
    ensures
        entries.len() == 5,
        forall|i: int| 0 <= i < entries.len() ==> {
            let e = #[trigger] entries[i];
            &&& e.id == 1 ==> e.start_time@ == "09:30"@ && e.end_time@ == "10:15"@ && e.session_id == 1
            &&& e.id == 2 ==> e.start_time@ == "10:30"@ && e.end_time@ == "11:15"@ && e.session_id == 5
            &&& e.id == 3 ==> e.start_time@ == "12:30"@ && e.end_time@ == "13:15"@ && e.session_id == 3
            &&& e.id == 4 ==> e.start_time@ == "13:30"@ && e.end_time@ == "14:15"@ && e.session_id == 4
            &&& e.id == 5 ==> e.start_time@ == "14:30"@ && e.end_time@ == "15:15"@ && e.session_id == 2
            &&& 1 <= e.id <= 5
        },
{
    assert(entry_views(entries).len() == 5);
    assert forall|i: int| 0 <= i < entries.len() implies entries[i]@ == example_entries()[i] by {
        assert(entry_views(entries)[i] == entries[i]@);
    }
}

} // verus!
