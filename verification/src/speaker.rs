//! The speakers of the conference.

use vstd::prelude::*;
use crate::ids::{ids_distinct, is_first_with_id};
use crate::numbers::{decimal, push_decimal};

verus! {

/// The biography of speaker 1.
pub const EINSTEIN_BIO: &'static str = "Albert is a German-born theoretical physicist universally 
            acknowledged to be one of the two greatest physicists of all time, 
            the other being Isaac Newton. Einstein developed the theory of relativity, 
            one of the two pillars of modern physics (alongside quantum mechanics). 
            His work is also known for its influence on the philosophy of science. 
            His mass–energy equivalence formula E = mc2 has been dubbed 'the world's most famous equation'. 
            He received the 1921 Nobel Prize in Physics 'for his services to theoretical physics, and 
            especially for his discovery of the law of the photoelectric effect', a pivotal step in the 
            development of quantum theory. His intellectual achievements and originality resulted 
            in 'Einstein' becoming synonymous with 'genius'";

/// The biography of speaker 2.
pub const HEISENBERG_BIO: &'static str = "Werner is a German theoretical physicist and one of the key pioneers of quantum mechanics. He published his work in 1925 in a breakthrough paper. In the subsequent series of papers with Max Born and Pascual Jordan, during the same year, this matrix formulation of quantum mechanics was substantially elaborated. He is known for the uncertainty principle, which he published in 1927. Heisenberg was awarded the 1932 Nobel Prize in Physics 'for the creation of quantum mechanics'";

/// The biography of speaker 3.
pub const BOHR_BIO: &'static str = "Niels Bohr is a Danish physicist who made foundational contributions to understanding atomic structure and quantum theory, for which he received the Nobel Prize in Physics in 1922. Bohr was also a philosopher and a promoter of scientific research.";

/// The biography of speaker 4.
pub const SCHROEDINGER_BIO: &'static str = "Erwin is a Nobel Prize-winning Austrian-Irish physicist who developed a number of fundamental results in quantum theory: the Schrödinger equation provides a way to calculate the wave function of a system and how it changes dynamically in time.";

/// A speaker.
#[derive(Clone, Debug)]
pub struct Speaker {
    pub id: u32,
    pub full_name: String,
    pub twitter: String,
    pub bio: String,
}

/// A speaker, with each text as its characters.
pub struct SpeakerView {
    pub id: u32,
    pub full_name: Seq<char>,
    pub twitter: Seq<char>,
    pub bio: Seq<char>,
}

impl View for Speaker {
    type V = SpeakerView;

    open spec fn view(&self) -> SpeakerView {
        SpeakerView {
            id: self.id,
            full_name: self.full_name@,
            twitter: self.twitter@,
            bio: self.bio@,
        }
    }
}

/// The speakers that the service starts with.
pub open spec fn example_speakers() -> Seq<SpeakerView> {
    seq![
        SpeakerView {
            id: 1,
            full_name: "Albert Einstein"@,
            twitter: "@TheAlbertEinstein"@,
            bio: EINSTEIN_BIO@,
        },
        SpeakerView {
            id: 2,
            full_name: "Werner Heisenberg"@,
            twitter: "@HeisenbergNotCooking"@,
            bio: HEISENBERG_BIO@,
        },
        SpeakerView {
            id: 3,
            full_name: "Niels Bohr"@,
            twitter: "@NielsHenrikDavidBohr"@,
            bio: BOHR_BIO@,
        },
        SpeakerView {
            id: 4,
            full_name: "Erwin Schrödinger"@,
            twitter: "@TheManWithOrWithoutCat"@,
            bio: SCHROEDINGER_BIO@,
        },
    ]
}

/// The views of a list of speakers.
pub open spec fn speaker_views(speakers: Seq<Speaker>) -> Seq<SpeakerView> {
    speakers.map_values(|s: Speaker| s@)
}

/// The speakers that the service starts with.
pub fn generate_examples() -> (speakers: Vec<Speaker>)
    ensures
        speaker_views(speakers@) == example_speakers(),
{
    let speakers = vec![
        Speaker {
            id: 1,
            full_name: String::from_str("Albert Einstein"),
            twitter: String::from_str("@TheAlbertEinstein"),
            bio: String::from_str(EINSTEIN_BIO),
        },
        Speaker {
            id: 2,
            full_name: String::from_str("Werner Heisenberg"),
            twitter: String::from_str("@HeisenbergNotCooking"),
            bio: String::from_str(HEISENBERG_BIO),
        },
        Speaker {
            id: 3,
            full_name: String::from_str("Niels Bohr"),
            twitter: String::from_str("@NielsHenrikDavidBohr"),
            bio: String::from_str(BOHR_BIO),
        },
        Speaker {
            id: 4,
            full_name: String::from_str("Erwin Schrödinger"),
            twitter: String::from_str("@TheManWithOrWithoutCat"),
            bio: String::from_str(SCHROEDINGER_BIO),
        },
    ];
    assert(speaker_views(speakers@) =~= example_speakers());
    speakers
}

/// The ids of a list of speakers, in order.
pub open spec fn speaker_ids(speakers: Seq<Speaker>) -> Seq<u32> {
    speakers.map_values(|s: Speaker| s.id)
}

/// The first speaker with the given id, where there is one.
pub fn find_speaker(speakers: &Vec<Speaker>, id: u32) -> (res: Option<&Speaker>)
    ensures
        res is None <==> !speaker_ids(speakers@).contains(id),
        res matches Some(s) ==> exists|i: int|
            is_first_with_id(speaker_ids(speakers@), id, i) && *s == speakers@[i],
{
    let ghost ids = speaker_ids(speakers@);
    let mut i: usize = 0;
    while i < speakers.len()
        invariant
            i <= speakers.len(),
            ids == speaker_ids(speakers@),
            forall|j: int| 0 <= j < i ==> ids[j] != id,
        decreases speakers.len() - i,
    {
        if speakers[i].id == id {
            assert(is_first_with_id(ids, id, i as int));
            assert(ids[i as int] == id);
            return Some(&speakers[i]);
        }
        i = i + 1;
    }
    assert forall|j: int| 0 <= j < ids.len() implies ids[j] != id by {}
    None
}

/// The address at which the speakers service answers for one speaker.
pub open spec fn speaker_url_text(id: u32) -> Seq<char> {
    "http://speakers:8081/"@ + decimal(id as nat)
}

/// The address at which the speakers service answers for the speaker `id`.
pub fn speaker_url(id: u32) -> (res: String)
    ensures
        res@ == speaker_url_text(id),
{
    let mut url = String::from_str("http://speakers:8081/");
    push_decimal(&mut url, id as u64);
    url
}

/// The speakers the service starts with have the ids 1 to 4, in order, so
/// no id occurs twice.
pub proof fn lemma_example_speaker_ids()
    ensures
        example_speakers().map_values(|s: SpeakerView| s.id) =~= seq![1u32, 2, 3, 4],
        ids_distinct(example_speakers().map_values(|s: SpeakerView| s.id)),
{
}

/// What the speakers service serves under each id, field by field: a list
/// of speakers made by `generate_examples` holds four speakers, and the one
/// with id 1 is Albert Einstein (`@TheAlbertEinstein`), id 2 Werner
/// Heisenberg (`@HeisenbergNotCooking`), id 3 Niels Bohr
/// (`@NielsHenrikDavidBohr`) and id 4 Erwin Schrödinger
/// (`@TheManWithOrWithoutCat`), each with his own biography.
pub proof fn lemma_example_speakers_by_id(speakers: Seq<Speaker>)
    requires
        speaker_views(speakers) == example_speakers(),
    ensures
        speakers.len() == 4,
        forall|i: int| 0 <= i < speakers.len() ==> {
            let s = #[trigger] speakers[i];
            &&& s.id == 1 ==> s.full_name@ == "Albert Einstein"@ && s.twitter@ == "@TheAlbertEinstein"@
                && s.bio@ == EINSTEIN_BIO@
            &&& s.id == 2 ==> s.full_name@ == "Werner Heisenberg"@ && s.twitter@ == "@HeisenbergNotCooking"@
                && s.bio@ == HEISENBERG_BIO@
            &&& s.id == 3 ==> s.full_name@ == "Niels Bohr"@ && s.twitter@ == "@NielsHenrikDavidBohr"@
                && s.bio@ == BOHR_BIO@
            &&& s.id == 4 ==> s.full_name@ == "Erwin Schrödinger"@ && s.twitter@ == "@TheManWithOrWithoutCat"@
                && s.bio@ == SCHROEDINGER_BIO@
            &&& 1 <= s.id <= 4
        },
{
    assert(speaker_views(speakers).len() == 4);
    assert forall|i: int| 0 <= i < speakers.len() implies speakers[i]@ == example_speakers()[i] by {
        assert(speaker_views(speakers)[i] == speakers[i]@);
    }
}

} // verus!
