//! The sessions of the conference, and the answer that the sessions
//! service gives for one: the session with its speaker's name and handle.

use vstd::prelude::*;
use crate::ids::{ids_distinct, is_first_with_id};
use crate::json::{AnswerError, has_field, json_object_fields, json_object_parse, parse_json_object, text_field_or_empty, text_or_empty};
use crate::numbers::{decimal, push_decimal};
use crate::speaker::{example_speakers, speaker_url, SpeakerView};

verus! {

/// The description of session 1.
pub const RELATIVITY_DESCRIPTION: &'static str = "The theory of relativity transformed theoretical physics and astronomy during the 20th century, superseding a 200-year-old theory of mechanics created primarily by Isaac Newton.It introduced concepts including spacetime as a unified entity of space and time, relativity of simultaneity, kinematic and gravitational time dilation, and length contraction. In the field of physics, relativity improved the science of elementary particles and their fundamental interactions, along with ushering in the nuclear age. With relativity, cosmology and astrophysics predicted extraordinary astronomical phenomena such as neutron stars, black holes, and gravitational waves.";

/// The description of session 2.
pub const UNCERTAINTY_DESCRIPTION: &'static str = "The uncertainty principle states that the more precisely the position of some particle is determined, the less precisely its momentum can be predicted from initial conditions, and vice versa. The listener will also learn how to not confuse this with the observer problem.";

/// The description of session 3.
pub const COPENHAGEN_DESCRIPTION: &'static str = "While Copenhagen is a beautiful city in Denmark and always worth a visit, the Copenhagen interpretation is a collection of views about the meaning of quantum mechanics principally attributed to Niels Bohr and Werner Heisenberg. It is one of the oldest of numerous proposed interpretations of quantum mechanics, as features of it date to the development of quantum mechanics during 1925–1927, and it remains one of the most commonly taught.";

/// The description of session 4.
pub const CATS_DESCRIPTION: &'static str = "This talk will present a thought experiment that illustrates an apparent paradox of quantum superposition. In the thought experiment, a hypothetical cat may be considered simultaneously both alive and dead as a result of being linked to a random subatomic event that may or may not occur. No actual cats will be hurt.";

/// A session.
#[derive(Clone, Debug)]
pub struct Session {
    pub id: u32,
    pub title: String,
    pub tag: String,
    pub description: String,
    pub speaker_id: u32,
}

/// A session, with each text as its characters.
pub struct SessionView {
    pub id: u32,
    pub title: Seq<char>,
    pub tag: Seq<char>,
    pub description: Seq<char>,
    pub speaker_id: u32,
}

impl View for Session {
    type V = SessionView;

    open spec fn view(&self) -> SessionView {
        SessionView {
            id: self.id,
            title: self.title@,
            tag: self.tag@,
            description: self.description@,
            speaker_id: self.speaker_id,
        }
    }
}

/// The sessions that the service starts with.
pub open spec fn example_sessions() -> Seq<SessionView> {
    seq![
        SessionView {
            id: 1,
            title: "Relativity is King"@,
            tag: "Keynote"@,
            description: RELATIVITY_DESCRIPTION@,
            speaker_id: 1,
        },
        SessionView {
            id: 2,
            title: "Uncertain about Uncertainty?"@,
            tag: ""@,
            description: UNCERTAINTY_DESCRIPTION@,
            speaker_id: 2,
        },
        SessionView {
            id: 3,
            title: "Welcome to Copenhagen"@,
            tag: ""@,
            description: COPENHAGEN_DESCRIPTION@,
            speaker_id: 3,
        },
        SessionView {
            id: 4,
            title: "Everything you know about cats is wrong!"@,
            tag: ""@,
            description: CATS_DESCRIPTION@,
            speaker_id: 4,
        },
    ]
}

/// The views of a list of sessions.
pub open spec fn session_views(sessions: Seq<Session>) -> Seq<SessionView> {
    sessions.map_values(|s: Session| s@)
}

/// The sessions that the service starts with.
pub fn generate_examples() -> (sessions: Vec<Session>)
    ensures
        session_views(sessions@) == example_sessions(),
{
    let sessions = vec![
        Session {
            id: 1,
            title: String::from_str("Relativity is King"),
            tag: String::from_str("Keynote"),
            speaker_id: 1,
            description: String::from_str(RELATIVITY_DESCRIPTION),
        },
        Session {
            id: 2,
            title: String::from_str("Uncertain about Uncertainty?"),
            tag: String::from_str(""),
            speaker_id: 2,
            description: String::from_str(UNCERTAINTY_DESCRIPTION),
        },
        Session {
            id: 3,
            title: String::from_str("Welcome to Copenhagen"),
            tag: String::from_str(""),
            speaker_id: 3,
            description: String::from_str(COPENHAGEN_DESCRIPTION),
        },
        Session {
            id: 4,
            title: String::from_str("Everything you know about cats is wrong!"),
            tag: String::from_str(""),
            speaker_id: 4,
            description: String::from_str(CATS_DESCRIPTION),
        },
    ];
    assert(session_views(sessions@) =~= example_sessions());
    sessions
}

/// The ids of a list of sessions, in order.
pub open spec fn session_ids(sessions: Seq<Session>) -> Seq<u32> {
    sessions.map_values(|s: Session| s.id)
}

/// The first session with the given id, where there is one.
pub fn find_session(sessions: &Vec<Session>, id: u32) -> (res: Option<&Session>)
    ensures
        res is None <==> !session_ids(sessions@).contains(id),
        res matches Some(s) ==> exists|i: int|
            is_first_with_id(session_ids(sessions@), id, i) && *s == sessions@[i],
{
    let ghost ids = session_ids(sessions@);
    let mut i: usize = 0;
    while i < sessions.len()
        invariant
            i <= sessions.len(),
            ids == session_ids(sessions@),
            forall|j: int| 0 <= j < i ==> ids[j] != id,
        decreases sessions.len() - i,
    {
        if sessions[i].id == id {
            assert(is_first_with_id(ids, id, i as int));
            assert(ids[i as int] == id);
            return Some(&sessions[i]);
        }
        i = i + 1;
    }
    assert forall|j: int| 0 <= j < ids.len() implies ids[j] != id by {}
    None
}

/// The sessions the service starts with have the ids 1 to 4, in order, so
/// no id occurs twice; session `i` is given by speaker `i`.
pub proof fn lemma_example_session_ids()
    ensures
        example_sessions().map_values(|s: SessionView| s.id) =~= seq![1u32, 2, 3, 4],
        ids_distinct(example_sessions().map_values(|s: SessionView| s.id)),
        example_sessions().map_values(|s: SessionView| s.speaker_id) =~= seq![1u32, 2, 3, 4],
{
}

/// The answer for a session: the session with the name and the handle of
/// its speaker.
#[derive(Clone, Debug)]
pub struct SessionAnswer {
    pub id: u32,
    pub title: String,
    pub tag: String,
    pub description: String,
    pub speaker_id: u32,
    pub speaker_name: String,
    pub speaker_twitter: String,
}

/// An answer for a session, with each text as its characters.
pub struct SessionAnswerView {
    pub id: u32,
    pub title: Seq<char>,
    pub tag: Seq<char>,
    pub description: Seq<char>,
    pub speaker_id: u32,
    pub speaker_name: Seq<char>,
    pub speaker_twitter: Seq<char>,
}

impl View for SessionAnswer {
    type V = SessionAnswerView;

    open spec fn view(&self) -> SessionAnswerView {
        SessionAnswerView {
            id: self.id,
            title: self.title@,
            tag: self.tag@,
            description: self.description@,
            speaker_id: self.speaker_id,
            speaker_name: self.speaker_name@,
            speaker_twitter: self.speaker_twitter@,
        }
    }
}

/// The answer for `session` given the fields of its speaker's record: the
/// session's own fields, and the speaker's `full_name` and `twitter`, each
/// empty where it is not a JSON string.
pub open spec fn session_answer(session: SessionView, speaker: Map<Seq<char>, Option<Seq<char>>>) -> SessionAnswerView {
    SessionAnswerView {
        id: session.id,
        title: session.title,
        tag: session.tag,
        description: session.description,
        speaker_id: session.speaker_id,
        speaker_name: text_or_empty(speaker["full_name"@]),
        speaker_twitter: text_or_empty(speaker["twitter"@]),
    }
}

/// The speaker's record has the fields that an answer reads.
pub open spec fn has_speaker_fields(speaker: Map<Seq<char>, Option<Seq<char>>>) -> bool {
    speaker.dom().contains("full_name"@) && speaker.dom().contains("twitter"@)
}

impl SessionAnswer {
    /// The answer for `session`, from its speaker's record.
    pub fn new(session: &Session, speaker_data: &serde_json::Map<String, serde_json::Value>) -> (res: SessionAnswer)
        requires
            has_speaker_fields(json_object_fields(*speaker_data)),
        ensures
            res@ == session_answer(session@, json_object_fields(*speaker_data)),
    {
        let speaker_name = text_field_or_empty(speaker_data, "full_name");
        let speaker_twitter = text_field_or_empty(speaker_data, "twitter");
        SessionAnswer {
            id: session.id,
            title: session.title.clone(),
            tag: session.tag.clone(),
            description: session.description.clone(),
            speaker_id: session.speaker_id,
            speaker_name,
            speaker_twitter,
        }
    }

    /// The answer for `session`, from the reply of the speakers service:
    /// an error where the reply is not a JSON object or lacks `full_name` or
    /// `twitter`.
    pub fn from_speaker_reply(session: &Session, reply: &str) -> (res: Result<SessionAnswer, AnswerError>)
        ensures
            match json_object_parse(reply@) {
                None => res == Err::<SessionAnswer, AnswerError>(AnswerError::InvalidJson),
                Some(fields) => if has_speaker_fields(fields) {
                    res matches Ok(answer) && answer@ == session_answer(session@, fields)
                } else {
                    res == Err::<SessionAnswer, AnswerError>(AnswerError::MissingField)
                },
            },
    {
        match parse_json_object(reply) {
            None => Err(AnswerError::InvalidJson),
            Some(data) => {
                if has_field(&data, "full_name") && has_field(&data, "twitter") {
                    Ok(SessionAnswer::new(session, &data))
                } else {
                    Err(AnswerError::MissingField)
                }
            },
        }
    }
}

/// The address at which the sessions service answers for one session.
pub open spec fn session_url_text(id: u32) -> Seq<char> {
    "http://sessions:8082/"@ + decimal(id as nat)
}

/// The address at which the sessions service answers for the session `id`.
pub fn session_url(id: u32) -> (res: String)
    ensures
        res@ == session_url_text(id),
{
    let mut url = String::from_str("http://sessions:8082/");
    push_decimal(&mut url, id as u64);
    url
}

/// The address from which the answer for `session` takes its speaker's
/// record: the speaker is looked up under the session's own id.
pub fn speaker_url_for(session: &Session) -> (res: String)
    ensures
        res@ == "http://speakers:8081/"@ + decimal(session.id as nat),
{
    speaker_url(session.id)
}

/// Each session the service starts with finds a speaker the speakers
/// service starts with, both under the id it is looked up by (the session's
/// own) and under its `speaker_id`.
pub proof fn lemma_example_sessions_find_speakers()
    ensures
        forall|i: int| 0 <= i < example_sessions().len() ==> {
            let ids = example_speakers().map_values(|s: SpeakerView| s.id);
            &&& ids.contains(#[trigger] example_sessions()[i].id)
            &&& ids.contains(example_sessions()[i].speaker_id)
        },
{
    let ids = example_speakers().map_values(|s: SpeakerView| s.id);
    assert(ids[0] == 1 && ids[1] == 2 && ids[2] == 3 && ids[3] == 4);
}

/// What the sessions service serves under each id, field by field: a list
/// of sessions made by `generate_examples` holds four sessions; id 1 is the
/// keynote "Relativity is King" by speaker 1, id 2 "Uncertain about
/// Uncertainty?" by speaker 2, id 3 "Welcome to Copenhagen" by speaker 3 and
/// id 4 "Everything you know about cats is wrong!" by speaker 4, each with
/// its own description and only the first with a tag.
pub proof fn lemma_example_sessions_by_id(sessions: Seq<Session>)
    requires
        session_views(sessions) == example_sessions(),
    ensures
        sessions.len() == 4,
        forall|i: int| 0 <= i < sessions.len() ==> {
            let s = #[trigger] sessions[i];
            &&& s.id == 1 ==> s.title@ == "Relativity is King"@ && s.tag@ == "Keynote"@
                && s.description@ == RELATIVITY_DESCRIPTION@ && s.speaker_id == 1
            &&& s.id == 2 ==> s.title@ == "Uncertain about Uncertainty?"@ && s.tag@ == ""@
                && s.description@ == UNCERTAINTY_DESCRIPTION@ && s.speaker_id == 2
            &&& s.id == 3 ==> s.title@ == "Welcome to Copenhagen"@ && s.tag@ == ""@
                && s.description@ == COPENHAGEN_DESCRIPTION@ && s.speaker_id == 3
            &&& s.id == 4 ==> s.title@ == "Everything you know about cats is wrong!"@ && s.tag@ == ""@
                && s.description@ == CATS_DESCRIPTION@ && s.speaker_id == 4
            &&& 1 <= s.id <= 4
        },
{
    assert(session_views(sessions).len() == 4);
    assert forall|i: int| 0 <= i < sessions.len() implies sessions[i]@ == example_sessions()[i] by {
        assert(session_views(sessions)[i] == sessions[i]@);
    }
}

} // verus!
