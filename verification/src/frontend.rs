//! The pages of the web frontend: which template each is rendered from and
//! which service, under which key, provides its data.

use vstd::prelude::*;
use vstd::utf8::{decode_utf8, valid_utf8};
use crate::settings::setting_text;

verus! {

/// Whether the frontend shows its alternate design, from the
/// `ALTERNATE_DESIGN` setting (`TRUE` or `FALSE`): it does where the setting
/// is set to anything but `FALSE`.
pub open spec fn alternate_design_of(setting: Option<Seq<char>>) -> bool {
    match setting {
        Some(t) => t != "FALSE"@,
        None => false,
    }
}

/// Whether the frontend shows its alternate design, from the
/// `ALTERNATE_DESIGN` setting.
pub fn alternate_design(setting: Option<&str>) -> (res: bool)
    ensures
        res == alternate_design_of(setting_text(setting)),
{
    match setting {
        Some(t) => String::from_str(t) != String::from_str("FALSE"),
        None => false,
    }
}

/// A page of the frontend.
#[derive(Clone, Copy, Debug, PartialEq, Eq, Structural)]
pub enum Page {
    Index,
    Speakers,
    Schedule,
    Sessions,
}

/// The name of the template that a page is rendered from.
pub open spec fn page_template(page: Page) -> Seq<char> {
    match page {
        Page::Index => "index"@,
        Page::Speakers => "speakers"@,
        Page::Schedule => "schedule"@,
        Page::Sessions => "sessions"@,
    }
}

/// The address of the service that provides a page's data, and the key
/// under which the data is handed to the template; `None` for a page that
/// shows no data.
pub open spec fn page_source(page: Page) -> Option<(Seq<char>, Seq<char>)> {
    match page {
        Page::Index => None,
        Page::Speakers => Some(("http://speakers:8081"@, "speakers"@)),
        Page::Schedule => Some(("http://schedule:8083"@, "schedule"@)),
        Page::Sessions => Some(("http://sessions:8082"@, "sessions"@)),
    }
}

impl Page {
    /// The name of the template the page is rendered from.
    pub fn template_name(&self) -> (res: &'static str)
        ensures
            res@ == page_template(*self),
    {
        match self {
            Page::Index => "index",
            Page::Speakers => "speakers",
            Page::Schedule => "schedule",
            Page::Sessions => "sessions",
        }
    }

    /// The address of the service that provides the page's data and the key
    /// under which the data goes to the template.
    pub fn source(&self) -> (res: Option<(&'static str, &'static str)>)
        ensures
            match res {
                Some((url, key)) => page_source(*self) == Some((url@, key@)),
                None => page_source(*self) is None,
            },
    {
        match self {
            Page::Index => None,
            Page::Speakers => Some(("http://speakers:8081", "speakers")),
            Page::Schedule => Some(("http://schedule:8083", "schedule")),
            Page::Sessions => Some(("http://sessions:8082", "sessions")),
        }
    }
}

/// Calls `String::from_utf8`: the text that the bytes encode, where they are
/// valid UTF-8, as its documentation says.
#[verifier::external_body]
fn string_from_utf8(bytes: Vec<u8>) -> (res: Option<String>)
    ensures
        res is Some <==> valid_utf8(bytes@),
        res matches Some(text) ==> text@ == decode_utf8(bytes@),
{
    String::from_utf8(bytes).ok()
}

/// The text of a reply's body: `None` where the body is not UTF-8.
pub fn response_text(body: Vec<u8>) -> (res: Option<String>)
    ensures
        res is Some <==> valid_utf8(body@),
        res matches Some(text) ==> text@ == decode_utf8(body@),
{
    string_from_utf8(body)
}

} // verus!
